//! The learning algorithms and their hyperparameters.

use crate::arguments::{pairs_map, ArgMap, HyperparameterArgs};
use crate::numbers::Real;
use crate::text::{
    bool_chars, bool_text, decimal, decimal_text, in_lower_case, in_upper_case, is_ascii_text,
    law_number_survives_writing, lemma_bool_is_lower_case, parse_u32, parsed_u32, same_text, to_lower,
};
use vstd::prelude::*;

verus! {

/// The algorithms that a training server runs.
#[derive(Debug, PartialEq, Eq, Hash)]
pub enum Algorithm {
    DDPG,
    PPO,
    REINFORCE,
    TD3,
    CUSTOM(String),
    ConfigInit,
}

/// An algorithm with the contents of its name.
pub enum AlgorithmView {
    DDPG,
    PPO,
    REINFORCE,
    TD3,
    CUSTOM(Seq<char>),
    ConfigInit,
}

impl View for Algorithm {
    type V = AlgorithmView;

    open spec fn view(&self) -> AlgorithmView {
        match self {
            Algorithm::DDPG => AlgorithmView::DDPG,
            Algorithm::PPO => AlgorithmView::PPO,
            Algorithm::REINFORCE => AlgorithmView::REINFORCE,
            Algorithm::TD3 => AlgorithmView::TD3,
            Algorithm::CUSTOM(name) => AlgorithmView::CUSTOM(name@),
            Algorithm::ConfigInit => AlgorithmView::ConfigInit,
        }
    }
}

impl Clone for Algorithm {
    fn clone(&self) -> (r: Self)
        ensures
            r == *self,
    {
        match self {
            Algorithm::DDPG => Algorithm::DDPG,
            Algorithm::PPO => Algorithm::PPO,
            Algorithm::REINFORCE => Algorithm::REINFORCE,
            Algorithm::TD3 => Algorithm::TD3,
            Algorithm::CUSTOM(name) => Algorithm::CUSTOM(name.clone()),
            Algorithm::ConfigInit => Algorithm::ConfigInit,
        }
    }
}

/// The algorithm that a name stands for; an unknown name is a custom algorithm's.
pub open spec fn algorithm_named(name: Seq<char>) -> AlgorithmView {
    if name == "DDPG"@ {
        AlgorithmView::DDPG
    } else if name == "PPO"@ {
        AlgorithmView::PPO
    } else if name == "REINFORCE"@ {
        AlgorithmView::REINFORCE
    } else if name == "TD3"@ {
        AlgorithmView::TD3
    } else if name == "CONFIG_INIT"@ {
        AlgorithmView::ConfigInit
    } else {
        AlgorithmView::CUSTOM(name)
    }
}

/// The name of an algorithm.
pub open spec fn algorithm_name(a: AlgorithmView) -> Seq<char> {
    match a {
        AlgorithmView::DDPG => "DDPG"@,
        AlgorithmView::PPO => "PPO"@,
        AlgorithmView::REINFORCE => "REINFORCE"@,
        AlgorithmView::TD3 => "TD3"@,
        AlgorithmView::CUSTOM(name) => name,
        AlgorithmView::ConfigInit => "CONFIG_INIT"@,
    }
}

/// The name of the algorithm that a name stands for is that name.
pub proof fn law_name_survives_reading(name: Seq<char>)
    ensures
        algorithm_name(algorithm_named(name)) == name,
{
}

/// The name of an algorithm stands for that algorithm, unless it is a custom one that bears the
/// name of a built-in one.
pub proof fn law_algorithm_survives_naming(a: AlgorithmView)
    requires
        a matches AlgorithmView::CUSTOM(name) ==> name != "DDPG"@ && name != "PPO"@ && name
            != "REINFORCE"@ && name != "TD3"@ && name != "CONFIG_INIT"@,
    ensures
        algorithm_named(algorithm_name(a)) == a,
{
    reveal_strlit("DDPG");
    reveal_strlit("PPO");
    reveal_strlit("REINFORCE");
    reveal_strlit("TD3");
    reveal_strlit("CONFIG_INIT");
    assert("DDPG"@.len() == 4 && "DDPG"@[0] == 'D');
    assert("PPO"@.len() == 3 && "PPO"@[0] == 'P');
    assert("TD3"@.len() == 3 && "TD3"@[0] == 'T');
    assert("REINFORCE"@.len() == 9);
    assert("CONFIG_INIT"@.len() == 11);
}

impl Algorithm {
    /// The algorithm that a name stands for.
    pub fn from_str(s: &str) -> (r: Option<Self>)
        ensures
            r is Some,
            r->0@ == algorithm_named(s@),
    {
        if same_text(s, "DDPG") {
            Some(Algorithm::DDPG)
        } else if same_text(s, "PPO") {
            Some(Algorithm::PPO)
        } else if same_text(s, "REINFORCE") {
            Some(Algorithm::REINFORCE)
        } else if same_text(s, "TD3") {
            Some(Algorithm::TD3)
        } else if same_text(s, "CONFIG_INIT") {
            Some(Algorithm::ConfigInit)
        } else {
            Some(Algorithm::CUSTOM(s.to_owned()))
        }
    }

    /// The name of the algorithm.
    pub fn as_str(&self) -> (r: &str)
        ensures
            r@ == algorithm_name(self@),
    {
        match self {
            Algorithm::DDPG => "DDPG",
            Algorithm::PPO => "PPO",
            Algorithm::REINFORCE => "REINFORCE",
            Algorithm::TD3 => "TD3",
            Algorithm::CUSTOM(name) => name.as_str(),
            Algorithm::ConfigInit => "CONFIG_INIT",
        }
    }

    /// Whether two algorithms are the same.
    pub fn same_as(&self, other: &Algorithm) -> (r: bool)
        ensures
            r == (self@ == other@),
    {
        match (self, other) {
            (Algorithm::DDPG, Algorithm::DDPG) => true,
            (Algorithm::PPO, Algorithm::PPO) => true,
            (Algorithm::REINFORCE, Algorithm::REINFORCE) => true,
            (Algorithm::TD3, Algorithm::TD3) => true,
            (Algorithm::CUSTOM(a), Algorithm::CUSTOM(b)) => same_text(a.as_str(), b.as_str()),
            (Algorithm::ConfigInit, Algorithm::ConfigInit) => true,
            _ => false,
        }
    }
}

/// A whole number that an argument may set.
pub open spec fn set_u32(args: Map<Seq<char>, Seq<char>>, key: Seq<char>, base: u32) -> u32 {
    if args.contains_key(key) && parsed_u32(args[key]) is Some {
        parsed_u32(args[key])->0
    } else {
        base
    }
}

/// A number with a fraction that an argument may set. `readings` holds, for each text that reads as
/// a number, that number's shortest form.
pub open spec fn set_real(
    args: Map<Seq<char>, Seq<char>>,
    readings: Map<Seq<char>, Seq<char>>,
    key: Seq<char>,
    base: Seq<char>,
) -> Seq<char> {
    if args.contains_key(key) && readings.contains_key(args[key]) {
        readings[args[key]]
    } else {
        base
    }
}

/// Whether a text says yes, in whatever case.
pub open spec fn says_yes(s: Seq<char>) -> bool {
    in_lower_case(s) == "true"@ || in_lower_case(s) == "1"@ || in_lower_case(s) == "yes"@
}

/// A truth value that an argument may set.
pub open spec fn set_flag(args: Map<Seq<char>, Seq<char>>, key: Seq<char>, base: bool) -> bool {
    if args.contains_key(key) {
        says_yes(args[key])
    } else {
        base
    }
}

fn u32_or(args: &ArgMap, key: &str, base: u32) -> (r: u32)
    requires
        args.wf(),
    ensures
        r == set_u32(args@, key@, base),
{
    match args.get(key) {
        Some(text) => match parse_u32(text.as_str()) {
            Some(value) => value,
            None => base,
        },
        None => base,
    }
}

fn real_or(args: &ArgMap, readings: &ArgMap, key: &str, base: &str) -> (r: Real)
    requires
        args.wf(),
        readings.wf(),
    ensures
        r.text@ == set_real(args@, readings@, key@, base@),
{
    match args.get(key) {
        Some(text) => match readings.get(text.as_str()) {
            Some(value) => Real { text: value.clone() },
            None => Real::of(base),
        },
        None => Real::of(base),
    }
}

/// Whether a text says yes, in whatever case.
pub fn yes(s: &str) -> (r: bool)
    ensures
        r == says_yes(s@),
{
    let lower = to_lower(s);
    says_yes_in_lower_case(lower.as_str())
}

/// Whether a text in lower case says yes.
pub fn says_yes_in_lower_case(lower: &str) -> (r: bool)
    ensures
        r == (lower@ == "true"@ || lower@ == "1"@ || lower@ == "yes"@),
{
    same_text(lower, "true") || same_text(lower, "1") || same_text(lower, "yes")
}

fn flag_or(args: &ArgMap, key: &str, base: bool) -> (r: bool)
    requires
        args.wf(),
    ensures
        r == set_flag(args@, key@, base),
{
    match args.get(key) {
        Some(text) => yes(text.as_str()),
        None => base,
    }
}

fn put(map: &mut ArgMap, key: &str, value: String)
    requires
        old(map).wf(),
    ensures
        final(map).wf(),
        final(map)@ == old(map)@.insert(key@, value@),
{
    map.insert(key.to_owned(), value);
}

/// Hyperparameters of DDPG.
#[derive(Debug)]
pub struct DDPGParams {
    pub seed: u32,
    pub gamma: Real,
    pub tau: Real,
    pub learning_rate: Real,
    pub batch_size: u32,
    pub buffer_size: u32,
    pub learning_starts: u32,
    pub policy_frequency: u32,
    pub noise_scale: Real,
    pub train_iters: u32,
}

impl DDPGParams {
    /// The parameters with what the arguments set; what they do not set has its default.
    pub open spec fn set_by(self, args: Map<Seq<char>, Seq<char>>, readings: Map<Seq<char>, Seq<char>>) -> bool {
        &&& self.seed == set_u32(args, "seed"@, 1)
        &&& self.gamma.text@ == set_real(args, readings, "gamma"@, "0.99"@)
        &&& self.tau.text@ == set_real(args, readings, "tau"@, "0.01"@)
        &&& self.learning_rate.text@ == set_real(args, readings, "learning_rate"@, "0.003"@)
        &&& self.batch_size == set_u32(args, "batch_size"@, 128)
        &&& self.buffer_size == set_u32(args, "buffer_size"@, 50000)
        &&& self.learning_starts == set_u32(args, "learning_starts"@, 128)
        &&& self.policy_frequency == set_u32(args, "policy_frequency"@, 1)
        &&& self.noise_scale.text@ == set_real(args, readings, "noise_scale"@, "0.1"@)
        &&& self.train_iters == set_u32(args, "train_iters"@, 50)
    }

    /// The parameters as arguments by name.
    pub open spec fn named(self) -> Map<Seq<char>, Seq<char>> {
        Map::<Seq<char>, Seq<char>>::empty()
            .insert("seed"@, decimal(self.seed as nat))
            .insert("gamma"@, self.gamma.text@)
            .insert("tau"@, self.tau.text@)
            .insert("learning_rate"@, self.learning_rate.text@)
            .insert("batch_size"@, decimal(self.batch_size as nat))
            .insert("buffer_size"@, decimal(self.buffer_size as nat))
            .insert("learning_starts"@, decimal(self.learning_starts as nat))
            .insert("policy_frequency"@, decimal(self.policy_frequency as nat))
            .insert("noise_scale"@, self.noise_scale.text@)
            .insert("train_iters"@, decimal(self.train_iters as nat))
    }

    /// The defaults, with what the arguments set.
    pub fn from_args(args: &ArgMap, readings: &ArgMap) -> (r: Self)
        requires
            args.wf(),
            readings.wf(),
        ensures
            r.set_by(args@, readings@),
            args@.contains_key("seed"@) && parsed_u32(args@["seed"@]) is Some ==> r.seed == parsed_u32(
                args@["seed"@],
            )->0,
            !(args@.contains_key("seed"@) && parsed_u32(args@["seed"@]) is Some) ==> r.seed == 1,
            args@.contains_key("gamma"@) && readings@.contains_key(args@["gamma"@]) ==> r.gamma.text@
                == readings@[args@["gamma"@]],
            !(args@.contains_key("gamma"@) && readings@.contains_key(args@["gamma"@])) ==> r.gamma.text@
                == "0.99"@,
            args@.contains_key("tau"@) && readings@.contains_key(args@["tau"@]) ==> r.tau.text@
                == readings@[args@["tau"@]],
            !(args@.contains_key("tau"@) && readings@.contains_key(args@["tau"@])) ==> r.tau.text@
                == "0.01"@,
            args@.contains_key("learning_rate"@) && readings@.contains_key(args@["learning_rate"@]) ==> r.learning_rate.text@
                == readings@[args@["learning_rate"@]],
            !(args@.contains_key("learning_rate"@) && readings@.contains_key(args@["learning_rate"@])) ==> r.learning_rate.text@
                == "0.003"@,
            args@.contains_key("batch_size"@) && parsed_u32(args@["batch_size"@]) is Some ==> r.batch_size == parsed_u32(
                args@["batch_size"@],
            )->0,
            !(args@.contains_key("batch_size"@) && parsed_u32(args@["batch_size"@]) is Some) ==> r.batch_size == 128,
            args@.contains_key("buffer_size"@) && parsed_u32(args@["buffer_size"@]) is Some ==> r.buffer_size == parsed_u32(
                args@["buffer_size"@],
            )->0,
            !(args@.contains_key("buffer_size"@) && parsed_u32(args@["buffer_size"@]) is Some) ==> r.buffer_size == 50000,
            args@.contains_key("learning_starts"@) && parsed_u32(args@["learning_starts"@]) is Some ==> r.learning_starts == parsed_u32(
                args@["learning_starts"@],
            )->0,
            !(args@.contains_key("learning_starts"@) && parsed_u32(args@["learning_starts"@]) is Some) ==> r.learning_starts == 128,
            args@.contains_key("policy_frequency"@) && parsed_u32(args@["policy_frequency"@]) is Some ==> r.policy_frequency == parsed_u32(
                args@["policy_frequency"@],
            )->0,
            !(args@.contains_key("policy_frequency"@) && parsed_u32(args@["policy_frequency"@]) is Some) ==> r.policy_frequency == 1,
            args@.contains_key("noise_scale"@) && readings@.contains_key(args@["noise_scale"@]) ==> r.noise_scale.text@
                == readings@[args@["noise_scale"@]],
            !(args@.contains_key("noise_scale"@) && readings@.contains_key(args@["noise_scale"@])) ==> r.noise_scale.text@
                == "0.1"@,
            args@.contains_key("train_iters"@) && parsed_u32(args@["train_iters"@]) is Some ==> r.train_iters == parsed_u32(
                args@["train_iters"@],
            )->0,
            !(args@.contains_key("train_iters"@) && parsed_u32(args@["train_iters"@]) is Some) ==> r.train_iters == 50,
    {
        DDPGParams {
            seed: u32_or(args, "seed", 1),
            gamma: real_or(args, readings, "gamma", "0.99"),
            tau: real_or(args, readings, "tau", "0.01"),
            learning_rate: real_or(args, readings, "learning_rate", "0.003"),
            batch_size: u32_or(args, "batch_size", 128),
            buffer_size: u32_or(args, "buffer_size", 50000),
            learning_starts: u32_or(args, "learning_starts", 128),
            policy_frequency: u32_or(args, "policy_frequency", 1),
            noise_scale: real_or(args, readings, "noise_scale", "0.1"),
            train_iters: u32_or(args, "train_iters", 50),
        }
    }

    fn to_map(&self) -> (r: ArgMap)
        ensures
            r.wf(),
            r@ == self.named(),
            r@.contains_key("seed"@) && r@["seed"@] == decimal(self.seed as nat),
            r@.contains_key("gamma"@) && r@["gamma"@] == self.gamma.text@,
            r@.contains_key("tau"@) && r@["tau"@] == self.tau.text@,
            r@.contains_key("learning_rate"@) && r@["learning_rate"@] == self.learning_rate.text@,
            r@.contains_key("batch_size"@) && r@["batch_size"@] == decimal(self.batch_size as nat),
            r@.contains_key("buffer_size"@) && r@["buffer_size"@] == decimal(self.buffer_size as nat),
            r@.contains_key("learning_starts"@) && r@["learning_starts"@] == decimal(self.learning_starts as nat),
            r@.contains_key("policy_frequency"@) && r@["policy_frequency"@] == decimal(self.policy_frequency as nat),
            r@.contains_key("noise_scale"@) && r@["noise_scale"@] == self.noise_scale.text@,
            r@.contains_key("train_iters"@) && r@["train_iters"@] == decimal(self.train_iters as nat),
    {
        let mut map = ArgMap::new();
        put(&mut map, "seed", decimal_text(self.seed as u64));
        put(&mut map, "gamma", self.gamma.text.clone());
        put(&mut map, "tau", self.tau.text.clone());
        put(&mut map, "learning_rate", self.learning_rate.text.clone());
        put(&mut map, "batch_size", decimal_text(self.batch_size as u64));
        put(&mut map, "buffer_size", decimal_text(self.buffer_size as u64));
        put(&mut map, "learning_starts", decimal_text(self.learning_starts as u64));
        put(&mut map, "policy_frequency", decimal_text(self.policy_frequency as u64));
        put(&mut map, "noise_scale", self.noise_scale.text.clone());
        put(&mut map, "train_iters", decimal_text(self.train_iters as u64));
        proof {
            law_ddpg_is_written_by_name(*self);
        }
        map
    }
}

impl Default for DDPGParams {
    fn default() -> (r: Self)
        ensures
            r.set_by(Map::empty(), Map::empty()),
            r.seed == 1,
            r.gamma.text@ == "0.99"@,
            r.tau.text@ == "0.01"@,
            r.learning_rate.text@ == "0.003"@,
            r.batch_size == 128,
            r.buffer_size == 50000,
            r.learning_starts == 128,
            r.policy_frequency == 1,
            r.noise_scale.text@ == "0.1"@,
            r.train_iters == 50,
    {
        DDPGParams {
            seed: 1,
            gamma: Real::of("0.99"),
            tau: Real::of("0.01"),
            learning_rate: Real::of("0.003"),
            batch_size: 128,
            buffer_size: 50000,
            learning_starts: 128,
            policy_frequency: 1,
            noise_scale: Real::of("0.1"),
            train_iters: 50,
        }
    }
}

impl Clone for DDPGParams {
    fn clone(&self) -> (r: Self)
        ensures
            r == *self,
    {
        DDPGParams {
            seed: self.seed,
            gamma: self.gamma.clone(),
            tau: self.tau.clone(),
            learning_rate: self.learning_rate.clone(),
            batch_size: self.batch_size,
            buffer_size: self.buffer_size,
            learning_starts: self.learning_starts,
            policy_frequency: self.policy_frequency,
            noise_scale: self.noise_scale.clone(),
            train_iters: self.train_iters,
        }
    }
}

/// Hyperparameters of PPO.
#[derive(Debug)]
pub struct PPOParams {
    pub discrete: bool,
    pub seed: u32,
    pub traj_per_epoch: u32,
    pub clip_ratio: Real,
    pub gamma: Real,
    pub lam: Real,
    pub pi_lr: Real,
    pub vf_lr: Real,
    pub train_pi_iters: u32,
    pub train_v_iters: u32,
    pub target_kl: Real,
}

impl PPOParams {
    /// The parameters with what the arguments set; what they do not set has its default.
    pub open spec fn set_by(self, args: Map<Seq<char>, Seq<char>>, readings: Map<Seq<char>, Seq<char>>) -> bool {
        &&& self.discrete == set_flag(args, "discrete"@, true)
        &&& self.seed == set_u32(args, "seed"@, 0)
        &&& self.traj_per_epoch == set_u32(args, "traj_per_epoch"@, 1)
        &&& self.clip_ratio.text@ == set_real(args, readings, "clip_ratio"@, "0.1"@)
        &&& self.gamma.text@ == set_real(args, readings, "gamma"@, "0.99"@)
        &&& self.lam.text@ == set_real(args, readings, "lam"@, "0.97"@)
        &&& self.pi_lr.text@ == set_real(args, readings, "pi_lr"@, "0.0003"@)
        &&& self.vf_lr.text@ == set_real(args, readings, "vf_lr"@, "0.0003"@)
        &&& self.train_pi_iters == set_u32(args, "train_pi_iters"@, 40)
        &&& self.train_v_iters == set_u32(args, "train_v_iters"@, 40)
        &&& self.target_kl.text@ == set_real(args, readings, "target_kl"@, "0.01"@)
    }

    /// The parameters as arguments by name.
    pub open spec fn named(self) -> Map<Seq<char>, Seq<char>> {
        Map::<Seq<char>, Seq<char>>::empty()
            .insert("discrete"@, bool_chars(self.discrete))
            .insert("seed"@, decimal(self.seed as nat))
            .insert("traj_per_epoch"@, decimal(self.traj_per_epoch as nat))
            .insert("clip_ratio"@, self.clip_ratio.text@)
            .insert("gamma"@, self.gamma.text@)
            .insert("lam"@, self.lam.text@)
            .insert("pi_lr"@, self.pi_lr.text@)
            .insert("vf_lr"@, self.vf_lr.text@)
            .insert("train_pi_iters"@, decimal(self.train_pi_iters as nat))
            .insert("train_v_iters"@, decimal(self.train_v_iters as nat))
            .insert("target_kl"@, self.target_kl.text@)
    }

    /// The defaults, with what the arguments set.
    pub fn from_args(args: &ArgMap, readings: &ArgMap) -> (r: Self)
        requires
            args.wf(),
            readings.wf(),
        ensures
            r.set_by(args@, readings@),
            args@.contains_key("discrete"@) ==> r.discrete == (in_lower_case(args@["discrete"@]) == "true"@ || in_lower_case(args@["discrete"@]) == "1"@
                || in_lower_case(args@["discrete"@]) == "yes"@),
            !args@.contains_key("discrete"@) ==> r.discrete == true,
            args@.contains_key("seed"@) && parsed_u32(args@["seed"@]) is Some ==> r.seed == parsed_u32(
                args@["seed"@],
            )->0,
            !(args@.contains_key("seed"@) && parsed_u32(args@["seed"@]) is Some) ==> r.seed == 0,
            args@.contains_key("traj_per_epoch"@) && parsed_u32(args@["traj_per_epoch"@]) is Some ==> r.traj_per_epoch == parsed_u32(
                args@["traj_per_epoch"@],
            )->0,
            !(args@.contains_key("traj_per_epoch"@) && parsed_u32(args@["traj_per_epoch"@]) is Some) ==> r.traj_per_epoch == 1,
            args@.contains_key("clip_ratio"@) && readings@.contains_key(args@["clip_ratio"@]) ==> r.clip_ratio.text@
                == readings@[args@["clip_ratio"@]],
            !(args@.contains_key("clip_ratio"@) && readings@.contains_key(args@["clip_ratio"@])) ==> r.clip_ratio.text@
                == "0.1"@,
            args@.contains_key("gamma"@) && readings@.contains_key(args@["gamma"@]) ==> r.gamma.text@
                == readings@[args@["gamma"@]],
            !(args@.contains_key("gamma"@) && readings@.contains_key(args@["gamma"@])) ==> r.gamma.text@
                == "0.99"@,
            args@.contains_key("lam"@) && readings@.contains_key(args@["lam"@]) ==> r.lam.text@
                == readings@[args@["lam"@]],
            !(args@.contains_key("lam"@) && readings@.contains_key(args@["lam"@])) ==> r.lam.text@
                == "0.97"@,
            args@.contains_key("pi_lr"@) && readings@.contains_key(args@["pi_lr"@]) ==> r.pi_lr.text@
                == readings@[args@["pi_lr"@]],
            !(args@.contains_key("pi_lr"@) && readings@.contains_key(args@["pi_lr"@])) ==> r.pi_lr.text@
                == "0.0003"@,
            args@.contains_key("vf_lr"@) && readings@.contains_key(args@["vf_lr"@]) ==> r.vf_lr.text@
                == readings@[args@["vf_lr"@]],
            !(args@.contains_key("vf_lr"@) && readings@.contains_key(args@["vf_lr"@])) ==> r.vf_lr.text@
                == "0.0003"@,
            args@.contains_key("train_pi_iters"@) && parsed_u32(args@["train_pi_iters"@]) is Some ==> r.train_pi_iters == parsed_u32(
                args@["train_pi_iters"@],
            )->0,
            !(args@.contains_key("train_pi_iters"@) && parsed_u32(args@["train_pi_iters"@]) is Some) ==> r.train_pi_iters == 40,
            args@.contains_key("train_v_iters"@) && parsed_u32(args@["train_v_iters"@]) is Some ==> r.train_v_iters == parsed_u32(
                args@["train_v_iters"@],
            )->0,
            !(args@.contains_key("train_v_iters"@) && parsed_u32(args@["train_v_iters"@]) is Some) ==> r.train_v_iters == 40,
            args@.contains_key("target_kl"@) && readings@.contains_key(args@["target_kl"@]) ==> r.target_kl.text@
                == readings@[args@["target_kl"@]],
            !(args@.contains_key("target_kl"@) && readings@.contains_key(args@["target_kl"@])) ==> r.target_kl.text@
                == "0.01"@,
    {
        PPOParams {
            discrete: flag_or(args, "discrete", true),
            seed: u32_or(args, "seed", 0),
            traj_per_epoch: u32_or(args, "traj_per_epoch", 1),
            clip_ratio: real_or(args, readings, "clip_ratio", "0.1"),
            gamma: real_or(args, readings, "gamma", "0.99"),
            lam: real_or(args, readings, "lam", "0.97"),
            pi_lr: real_or(args, readings, "pi_lr", "0.0003"),
            vf_lr: real_or(args, readings, "vf_lr", "0.0003"),
            train_pi_iters: u32_or(args, "train_pi_iters", 40),
            train_v_iters: u32_or(args, "train_v_iters", 40),
            target_kl: real_or(args, readings, "target_kl", "0.01"),
        }
    }

    fn to_map(&self) -> (r: ArgMap)
        ensures
            r.wf(),
            r@ == self.named(),
            r@.contains_key("discrete"@) && r@["discrete"@] == bool_chars(self.discrete),
            r@.contains_key("seed"@) && r@["seed"@] == decimal(self.seed as nat),
            r@.contains_key("traj_per_epoch"@) && r@["traj_per_epoch"@] == decimal(self.traj_per_epoch as nat),
            r@.contains_key("clip_ratio"@) && r@["clip_ratio"@] == self.clip_ratio.text@,
            r@.contains_key("gamma"@) && r@["gamma"@] == self.gamma.text@,
            r@.contains_key("lam"@) && r@["lam"@] == self.lam.text@,
            r@.contains_key("pi_lr"@) && r@["pi_lr"@] == self.pi_lr.text@,
            r@.contains_key("vf_lr"@) && r@["vf_lr"@] == self.vf_lr.text@,
            r@.contains_key("train_pi_iters"@) && r@["train_pi_iters"@] == decimal(self.train_pi_iters as nat),
            r@.contains_key("train_v_iters"@) && r@["train_v_iters"@] == decimal(self.train_v_iters as nat),
            r@.contains_key("target_kl"@) && r@["target_kl"@] == self.target_kl.text@,
    {
        let mut map = ArgMap::new();
        put(&mut map, "discrete", bool_text(self.discrete));
        put(&mut map, "seed", decimal_text(self.seed as u64));
        put(&mut map, "traj_per_epoch", decimal_text(self.traj_per_epoch as u64));
        put(&mut map, "clip_ratio", self.clip_ratio.text.clone());
        put(&mut map, "gamma", self.gamma.text.clone());
        put(&mut map, "lam", self.lam.text.clone());
        put(&mut map, "pi_lr", self.pi_lr.text.clone());
        put(&mut map, "vf_lr", self.vf_lr.text.clone());
        put(&mut map, "train_pi_iters", decimal_text(self.train_pi_iters as u64));
        put(&mut map, "train_v_iters", decimal_text(self.train_v_iters as u64));
        put(&mut map, "target_kl", self.target_kl.text.clone());
        proof {
            law_ppo_is_written_by_name(*self);
        }
        map
    }
}

impl Default for PPOParams {
    fn default() -> (r: Self)
        ensures
            r.set_by(Map::empty(), Map::empty()),
            r.discrete == true,
            r.seed == 0,
            r.traj_per_epoch == 1,
            r.clip_ratio.text@ == "0.1"@,
            r.gamma.text@ == "0.99"@,
            r.lam.text@ == "0.97"@,
            r.pi_lr.text@ == "0.0003"@,
            r.vf_lr.text@ == "0.0003"@,
            r.train_pi_iters == 40,
            r.train_v_iters == 40,
            r.target_kl.text@ == "0.01"@,
    {
        PPOParams {
            discrete: true,
            seed: 0,
            traj_per_epoch: 1,
            clip_ratio: Real::of("0.1"),
            gamma: Real::of("0.99"),
            lam: Real::of("0.97"),
            pi_lr: Real::of("0.0003"),
            vf_lr: Real::of("0.0003"),
            train_pi_iters: 40,
            train_v_iters: 40,
            target_kl: Real::of("0.01"),
        }
    }
}

impl Clone for PPOParams {
    fn clone(&self) -> (r: Self)
        ensures
            r == *self,
    {
        PPOParams {
            discrete: self.discrete,
            seed: self.seed,
            traj_per_epoch: self.traj_per_epoch,
            clip_ratio: self.clip_ratio.clone(),
            gamma: self.gamma.clone(),
            lam: self.lam.clone(),
            pi_lr: self.pi_lr.clone(),
            vf_lr: self.vf_lr.clone(),
            train_pi_iters: self.train_pi_iters,
            train_v_iters: self.train_v_iters,
            target_kl: self.target_kl.clone(),
        }
    }
}

/// Hyperparameters of REINFORCE.
#[derive(Debug)]
pub struct REINFORCEParams {
    pub discrete: bool,
    pub with_vf_baseline: bool,
    pub seed: u32,
    pub traj_per_epoch: u32,
    pub gamma: Real,
    pub lam: Real,
    pub pi_lr: Real,
    pub vf_lr: Real,
    pub train_vf_iters: u32,
}

impl REINFORCEParams {
    /// The parameters with what the arguments set; what they do not set has its default.
    pub open spec fn set_by(self, args: Map<Seq<char>, Seq<char>>, readings: Map<Seq<char>, Seq<char>>) -> bool {
        &&& self.discrete == set_flag(args, "discrete"@, true)
        &&& self.with_vf_baseline == set_flag(args, "with_vf_baseline"@, false)
        &&& self.seed == set_u32(args, "seed"@, 1)
        &&& self.traj_per_epoch == set_u32(args, "traj_per_epoch"@, 8)
        &&& self.gamma.text@ == set_real(args, readings, "gamma"@, "0.98"@)
        &&& self.lam.text@ == set_real(args, readings, "lam"@, "0.97"@)
        &&& self.pi_lr.text@ == set_real(args, readings, "pi_lr"@, "0.0003"@)
        &&& self.vf_lr.text@ == set_real(args, readings, "vf_lr"@, "0.001"@)
        &&& self.train_vf_iters == set_u32(args, "train_vf_iters"@, 80)
    }

    /// The parameters as arguments by name.
    pub open spec fn named(self) -> Map<Seq<char>, Seq<char>> {
        Map::<Seq<char>, Seq<char>>::empty()
            .insert("discrete"@, bool_chars(self.discrete))
            .insert("with_vf_baseline"@, bool_chars(self.with_vf_baseline))
            .insert("seed"@, decimal(self.seed as nat))
            .insert("traj_per_epoch"@, decimal(self.traj_per_epoch as nat))
            .insert("gamma"@, self.gamma.text@)
            .insert("lam"@, self.lam.text@)
            .insert("pi_lr"@, self.pi_lr.text@)
            .insert("vf_lr"@, self.vf_lr.text@)
            .insert("train_vf_iters"@, decimal(self.train_vf_iters as nat))
    }

    /// The defaults, with what the arguments set.
    pub fn from_args(args: &ArgMap, readings: &ArgMap) -> (r: Self)
        requires
            args.wf(),
            readings.wf(),
        ensures
            r.set_by(args@, readings@),
            args@.contains_key("discrete"@) ==> r.discrete == (in_lower_case(args@["discrete"@]) == "true"@ || in_lower_case(args@["discrete"@]) == "1"@
                || in_lower_case(args@["discrete"@]) == "yes"@),
            !args@.contains_key("discrete"@) ==> r.discrete == true,
            args@.contains_key("with_vf_baseline"@) ==> r.with_vf_baseline == (in_lower_case(args@["with_vf_baseline"@]) == "true"@ || in_lower_case(args@["with_vf_baseline"@]) == "1"@
                || in_lower_case(args@["with_vf_baseline"@]) == "yes"@),
            !args@.contains_key("with_vf_baseline"@) ==> r.with_vf_baseline == false,
            args@.contains_key("seed"@) && parsed_u32(args@["seed"@]) is Some ==> r.seed == parsed_u32(
                args@["seed"@],
            )->0,
            !(args@.contains_key("seed"@) && parsed_u32(args@["seed"@]) is Some) ==> r.seed == 1,
            args@.contains_key("traj_per_epoch"@) && parsed_u32(args@["traj_per_epoch"@]) is Some ==> r.traj_per_epoch == parsed_u32(
                args@["traj_per_epoch"@],
            )->0,
            !(args@.contains_key("traj_per_epoch"@) && parsed_u32(args@["traj_per_epoch"@]) is Some) ==> r.traj_per_epoch == 8,
            args@.contains_key("gamma"@) && readings@.contains_key(args@["gamma"@]) ==> r.gamma.text@
                == readings@[args@["gamma"@]],
            !(args@.contains_key("gamma"@) && readings@.contains_key(args@["gamma"@])) ==> r.gamma.text@
                == "0.98"@,
            args@.contains_key("lam"@) && readings@.contains_key(args@["lam"@]) ==> r.lam.text@
                == readings@[args@["lam"@]],
            !(args@.contains_key("lam"@) && readings@.contains_key(args@["lam"@])) ==> r.lam.text@
                == "0.97"@,
            args@.contains_key("pi_lr"@) && readings@.contains_key(args@["pi_lr"@]) ==> r.pi_lr.text@
                == readings@[args@["pi_lr"@]],
            !(args@.contains_key("pi_lr"@) && readings@.contains_key(args@["pi_lr"@])) ==> r.pi_lr.text@
                == "0.0003"@,
            args@.contains_key("vf_lr"@) && readings@.contains_key(args@["vf_lr"@]) ==> r.vf_lr.text@
                == readings@[args@["vf_lr"@]],
            !(args@.contains_key("vf_lr"@) && readings@.contains_key(args@["vf_lr"@])) ==> r.vf_lr.text@
                == "0.001"@,
            args@.contains_key("train_vf_iters"@) && parsed_u32(args@["train_vf_iters"@]) is Some ==> r.train_vf_iters == parsed_u32(
                args@["train_vf_iters"@],
            )->0,
            !(args@.contains_key("train_vf_iters"@) && parsed_u32(args@["train_vf_iters"@]) is Some) ==> r.train_vf_iters == 80,
    {
        REINFORCEParams {
            discrete: flag_or(args, "discrete", true),
            with_vf_baseline: flag_or(args, "with_vf_baseline", false),
            seed: u32_or(args, "seed", 1),
            traj_per_epoch: u32_or(args, "traj_per_epoch", 8),
            gamma: real_or(args, readings, "gamma", "0.98"),
            lam: real_or(args, readings, "lam", "0.97"),
            pi_lr: real_or(args, readings, "pi_lr", "0.0003"),
            vf_lr: real_or(args, readings, "vf_lr", "0.001"),
            train_vf_iters: u32_or(args, "train_vf_iters", 80),
        }
    }

    fn to_map(&self) -> (r: ArgMap)
        ensures
            r.wf(),
            r@ == self.named(),
            r@.contains_key("discrete"@) && r@["discrete"@] == bool_chars(self.discrete),
            r@.contains_key("with_vf_baseline"@) && r@["with_vf_baseline"@] == bool_chars(self.with_vf_baseline),
            r@.contains_key("seed"@) && r@["seed"@] == decimal(self.seed as nat),
            r@.contains_key("traj_per_epoch"@) && r@["traj_per_epoch"@] == decimal(self.traj_per_epoch as nat),
            r@.contains_key("gamma"@) && r@["gamma"@] == self.gamma.text@,
            r@.contains_key("lam"@) && r@["lam"@] == self.lam.text@,
            r@.contains_key("pi_lr"@) && r@["pi_lr"@] == self.pi_lr.text@,
            r@.contains_key("vf_lr"@) && r@["vf_lr"@] == self.vf_lr.text@,
            r@.contains_key("train_vf_iters"@) && r@["train_vf_iters"@] == decimal(self.train_vf_iters as nat),
    {
        let mut map = ArgMap::new();
        put(&mut map, "discrete", bool_text(self.discrete));
        put(&mut map, "with_vf_baseline", bool_text(self.with_vf_baseline));
        put(&mut map, "seed", decimal_text(self.seed as u64));
        put(&mut map, "traj_per_epoch", decimal_text(self.traj_per_epoch as u64));
        put(&mut map, "gamma", self.gamma.text.clone());
        put(&mut map, "lam", self.lam.text.clone());
        put(&mut map, "pi_lr", self.pi_lr.text.clone());
        put(&mut map, "vf_lr", self.vf_lr.text.clone());
        put(&mut map, "train_vf_iters", decimal_text(self.train_vf_iters as u64));
        proof {
            law_reinforce_is_written_by_name(*self);
        }
        map
    }
}

impl Default for REINFORCEParams {
    fn default() -> (r: Self)
        ensures
            r.set_by(Map::empty(), Map::empty()),
            r.discrete == true,
            r.with_vf_baseline == false,
            r.seed == 1,
            r.traj_per_epoch == 8,
            r.gamma.text@ == "0.98"@,
            r.lam.text@ == "0.97"@,
            r.pi_lr.text@ == "0.0003"@,
            r.vf_lr.text@ == "0.001"@,
            r.train_vf_iters == 80,
    {
        REINFORCEParams {
            discrete: true,
            with_vf_baseline: false,
            seed: 1,
            traj_per_epoch: 8,
            gamma: Real::of("0.98"),
            lam: Real::of("0.97"),
            pi_lr: Real::of("0.0003"),
            vf_lr: Real::of("0.001"),
            train_vf_iters: 80,
        }
    }
}

impl Clone for REINFORCEParams {
    fn clone(&self) -> (r: Self)
        ensures
            r == *self,
    {
        REINFORCEParams {
            discrete: self.discrete,
            with_vf_baseline: self.with_vf_baseline,
            seed: self.seed,
            traj_per_epoch: self.traj_per_epoch,
            gamma: self.gamma.clone(),
            lam: self.lam.clone(),
            pi_lr: self.pi_lr.clone(),
            vf_lr: self.vf_lr.clone(),
            train_vf_iters: self.train_vf_iters,
        }
    }
}

/// Hyperparameters of TD3.
#[derive(Debug)]
pub struct TD3Params {
    pub seed: u32,
    pub gamma: Real,
    pub tau: Real,
    pub learning_rate: Real,
    pub batch_size: u32,
    pub buffer_size: u32,
    pub exploration_noise: Real,
    pub policy_noise: Real,
    pub noise_clip: Real,
    pub learning_starts: u32,
    pub policy_frequency: u32,
}

impl TD3Params {
    /// The parameters with what the arguments set; what they do not set has its default.
    pub open spec fn set_by(self, args: Map<Seq<char>, Seq<char>>, readings: Map<Seq<char>, Seq<char>>) -> bool {
        &&& self.seed == set_u32(args, "seed"@, 1)
        &&& self.gamma.text@ == set_real(args, readings, "gamma"@, "0.99"@)
        &&& self.tau.text@ == set_real(args, readings, "tau"@, "0.005"@)
        &&& self.learning_rate.text@ == set_real(args, readings, "learning_rate"@, "0.0003"@)
        &&& self.batch_size == set_u32(args, "batch_size"@, 128)
        &&& self.buffer_size == set_u32(args, "buffer_size"@, 50000)
        &&& self.exploration_noise.text@ == set_real(args, readings, "exploration_noise"@, "0.1"@)
        &&& self.policy_noise.text@ == set_real(args, readings, "policy_noise"@, "0.2"@)
        &&& self.noise_clip.text@ == set_real(args, readings, "noise_clip"@, "0.5"@)
        &&& self.learning_starts == set_u32(args, "learning_starts"@, 25000)
        &&& self.policy_frequency == set_u32(args, "policy_frequency"@, 2)
    }

    /// The parameters as arguments by name.
    pub open spec fn named(self) -> Map<Seq<char>, Seq<char>> {
        Map::<Seq<char>, Seq<char>>::empty()
            .insert("seed"@, decimal(self.seed as nat))
            .insert("gamma"@, self.gamma.text@)
            .insert("tau"@, self.tau.text@)
            .insert("learning_rate"@, self.learning_rate.text@)
            .insert("batch_size"@, decimal(self.batch_size as nat))
            .insert("buffer_size"@, decimal(self.buffer_size as nat))
            .insert("exploration_noise"@, self.exploration_noise.text@)
            .insert("policy_noise"@, self.policy_noise.text@)
            .insert("noise_clip"@, self.noise_clip.text@)
            .insert("learning_starts"@, decimal(self.learning_starts as nat))
            .insert("policy_frequency"@, decimal(self.policy_frequency as nat))
    }

    /// The defaults, with what the arguments set.
    pub fn from_args(args: &ArgMap, readings: &ArgMap) -> (r: Self)
        requires
            args.wf(),
            readings.wf(),
        ensures
            r.set_by(args@, readings@),
            args@.contains_key("seed"@) && parsed_u32(args@["seed"@]) is Some ==> r.seed == parsed_u32(
                args@["seed"@],
            )->0,
            !(args@.contains_key("seed"@) && parsed_u32(args@["seed"@]) is Some) ==> r.seed == 1,
            args@.contains_key("gamma"@) && readings@.contains_key(args@["gamma"@]) ==> r.gamma.text@
                == readings@[args@["gamma"@]],
            !(args@.contains_key("gamma"@) && readings@.contains_key(args@["gamma"@])) ==> r.gamma.text@
                == "0.99"@,
            args@.contains_key("tau"@) && readings@.contains_key(args@["tau"@]) ==> r.tau.text@
                == readings@[args@["tau"@]],
            !(args@.contains_key("tau"@) && readings@.contains_key(args@["tau"@])) ==> r.tau.text@
                == "0.005"@,
            args@.contains_key("learning_rate"@) && readings@.contains_key(args@["learning_rate"@]) ==> r.learning_rate.text@
                == readings@[args@["learning_rate"@]],
            !(args@.contains_key("learning_rate"@) && readings@.contains_key(args@["learning_rate"@])) ==> r.learning_rate.text@
                == "0.0003"@,
            args@.contains_key("batch_size"@) && parsed_u32(args@["batch_size"@]) is Some ==> r.batch_size == parsed_u32(
                args@["batch_size"@],
            )->0,
            !(args@.contains_key("batch_size"@) && parsed_u32(args@["batch_size"@]) is Some) ==> r.batch_size == 128,
            args@.contains_key("buffer_size"@) && parsed_u32(args@["buffer_size"@]) is Some ==> r.buffer_size == parsed_u32(
                args@["buffer_size"@],
            )->0,
            !(args@.contains_key("buffer_size"@) && parsed_u32(args@["buffer_size"@]) is Some) ==> r.buffer_size == 50000,
            args@.contains_key("exploration_noise"@) && readings@.contains_key(args@["exploration_noise"@]) ==> r.exploration_noise.text@
                == readings@[args@["exploration_noise"@]],
            !(args@.contains_key("exploration_noise"@) && readings@.contains_key(args@["exploration_noise"@])) ==> r.exploration_noise.text@
                == "0.1"@,
            args@.contains_key("policy_noise"@) && readings@.contains_key(args@["policy_noise"@]) ==> r.policy_noise.text@
                == readings@[args@["policy_noise"@]],
            !(args@.contains_key("policy_noise"@) && readings@.contains_key(args@["policy_noise"@])) ==> r.policy_noise.text@
                == "0.2"@,
            args@.contains_key("noise_clip"@) && readings@.contains_key(args@["noise_clip"@]) ==> r.noise_clip.text@
                == readings@[args@["noise_clip"@]],
            !(args@.contains_key("noise_clip"@) && readings@.contains_key(args@["noise_clip"@])) ==> r.noise_clip.text@
                == "0.5"@,
            args@.contains_key("learning_starts"@) && parsed_u32(args@["learning_starts"@]) is Some ==> r.learning_starts == parsed_u32(
                args@["learning_starts"@],
            )->0,
            !(args@.contains_key("learning_starts"@) && parsed_u32(args@["learning_starts"@]) is Some) ==> r.learning_starts == 25000,
            args@.contains_key("policy_frequency"@) && parsed_u32(args@["policy_frequency"@]) is Some ==> r.policy_frequency == parsed_u32(
                args@["policy_frequency"@],
            )->0,
            !(args@.contains_key("policy_frequency"@) && parsed_u32(args@["policy_frequency"@]) is Some) ==> r.policy_frequency == 2,
    {
        TD3Params {
            seed: u32_or(args, "seed", 1),
            gamma: real_or(args, readings, "gamma", "0.99"),
            tau: real_or(args, readings, "tau", "0.005"),
            learning_rate: real_or(args, readings, "learning_rate", "0.0003"),
            batch_size: u32_or(args, "batch_size", 128),
            buffer_size: u32_or(args, "buffer_size", 50000),
            exploration_noise: real_or(args, readings, "exploration_noise", "0.1"),
            policy_noise: real_or(args, readings, "policy_noise", "0.2"),
            noise_clip: real_or(args, readings, "noise_clip", "0.5"),
            learning_starts: u32_or(args, "learning_starts", 25000),
            policy_frequency: u32_or(args, "policy_frequency", 2),
        }
    }

    fn to_map(&self) -> (r: ArgMap)
        ensures
            r.wf(),
            r@ == self.named(),
            r@.contains_key("seed"@) && r@["seed"@] == decimal(self.seed as nat),
            r@.contains_key("gamma"@) && r@["gamma"@] == self.gamma.text@,
            r@.contains_key("tau"@) && r@["tau"@] == self.tau.text@,
            r@.contains_key("learning_rate"@) && r@["learning_rate"@] == self.learning_rate.text@,
            r@.contains_key("batch_size"@) && r@["batch_size"@] == decimal(self.batch_size as nat),
            r@.contains_key("buffer_size"@) && r@["buffer_size"@] == decimal(self.buffer_size as nat),
            r@.contains_key("exploration_noise"@) && r@["exploration_noise"@] == self.exploration_noise.text@,
            r@.contains_key("policy_noise"@) && r@["policy_noise"@] == self.policy_noise.text@,
            r@.contains_key("noise_clip"@) && r@["noise_clip"@] == self.noise_clip.text@,
            r@.contains_key("learning_starts"@) && r@["learning_starts"@] == decimal(self.learning_starts as nat),
            r@.contains_key("policy_frequency"@) && r@["policy_frequency"@] == decimal(self.policy_frequency as nat),
    {
        let mut map = ArgMap::new();
        put(&mut map, "seed", decimal_text(self.seed as u64));
        put(&mut map, "gamma", self.gamma.text.clone());
        put(&mut map, "tau", self.tau.text.clone());
        put(&mut map, "learning_rate", self.learning_rate.text.clone());
        put(&mut map, "batch_size", decimal_text(self.batch_size as u64));
        put(&mut map, "buffer_size", decimal_text(self.buffer_size as u64));
        put(&mut map, "exploration_noise", self.exploration_noise.text.clone());
        put(&mut map, "policy_noise", self.policy_noise.text.clone());
        put(&mut map, "noise_clip", self.noise_clip.text.clone());
        put(&mut map, "learning_starts", decimal_text(self.learning_starts as u64));
        put(&mut map, "policy_frequency", decimal_text(self.policy_frequency as u64));
        proof {
            law_td3_is_written_by_name(*self);
        }
        map
    }
}

impl Default for TD3Params {
    fn default() -> (r: Self)
        ensures
            r.set_by(Map::empty(), Map::empty()),
            r.seed == 1,
            r.gamma.text@ == "0.99"@,
            r.tau.text@ == "0.005"@,
            r.learning_rate.text@ == "0.0003"@,
            r.batch_size == 128,
            r.buffer_size == 50000,
            r.exploration_noise.text@ == "0.1"@,
            r.policy_noise.text@ == "0.2"@,
            r.noise_clip.text@ == "0.5"@,
            r.learning_starts == 25000,
            r.policy_frequency == 2,
    {
        TD3Params {
            seed: 1,
            gamma: Real::of("0.99"),
            tau: Real::of("0.005"),
            learning_rate: Real::of("0.0003"),
            batch_size: 128,
            buffer_size: 50000,
            exploration_noise: Real::of("0.1"),
            policy_noise: Real::of("0.2"),
            noise_clip: Real::of("0.5"),
            learning_starts: 25000,
            policy_frequency: 2,
        }
    }
}

impl Clone for TD3Params {
    fn clone(&self) -> (r: Self)
        ensures
            r == *self,
    {
        TD3Params {
            seed: self.seed,
            gamma: self.gamma.clone(),
            tau: self.tau.clone(),
            learning_rate: self.learning_rate.clone(),
            batch_size: self.batch_size,
            buffer_size: self.buffer_size,
            exploration_noise: self.exploration_noise.clone(),
            policy_noise: self.policy_noise.clone(),
            noise_clip: self.noise_clip.clone(),
            learning_starts: self.learning_starts,
            policy_frequency: self.policy_frequency,
        }
    }
}

/// Hyperparameters of a custom algorithm.
#[derive(Debug)]
pub struct CustomAlgorithmParams {
    pub algorithm_name: Algorithm,
    pub hyperparams: ArgMap,
}

impl CustomAlgorithmParams {
    /// The parameters as arguments by name, with the algorithm's name among them; a parameter of
    /// that key takes its place.
    pub open spec fn named(self) -> Map<Seq<char>, Seq<char>> {
        Map::<Seq<char>, Seq<char>>::empty().insert(
            "custom_algorithm_name"@,
            algorithm_name(self.algorithm_name@),
        ).union_prefer_right(self.hyperparams@)
    }

    fn to_map(&self) -> (r: ArgMap)
        requires
            self.hyperparams.wf(),
        ensures
            r.wf(),
            r@ == self.named(),
    {
        let mut map = ArgMap::new();
        put(&mut map, "custom_algorithm_name", self.algorithm_name.as_str().to_owned());
        map.extend(&self.hyperparams);
        map
    }
}

impl Default for CustomAlgorithmParams {
    fn default() -> (r: Self)
        ensures
            r.algorithm_name@ == AlgorithmView::CUSTOM(""@),
            r.hyperparams.wf(),
            r.hyperparams@ == (Map::<Seq<char>, Seq<char>>::empty()),
    {
        CustomAlgorithmParams {
            algorithm_name: Algorithm::CUSTOM("".to_owned()),
            hyperparams: ArgMap::new(),
        }
    }
}

impl Clone for CustomAlgorithmParams {
    fn clone(&self) -> (r: Self)
        ensures
            r.algorithm_name == self.algorithm_name,
            r.hyperparams@ == self.hyperparams@,
            self.hyperparams.wf() ==> r.hyperparams.wf(),
    {
        CustomAlgorithmParams {
            algorithm_name: self.algorithm_name.clone(),
            hyperparams: self.hyperparams.clone(),
        }
    }
}

/// The hyperparameters of all algorithms that a configuration knows.
#[derive(Debug)]
pub struct HyperparameterConfig {
    pub ddpg: Option<DDPGParams>,
    pub ppo: Option<PPOParams>,
    pub reinforce: Option<REINFORCEParams>,
    pub td3: Option<TD3Params>,
    pub custom: Option<CustomAlgorithmParams>,
}

/// Arguments by algorithm. Each algorithm occurs once.
#[derive(Debug)]
pub struct HyperparameterTable {
    pub entries: Vec<(Algorithm, HyperparameterArgs)>,
}

/// The contents of a table's entries.
pub open spec fn table_views(entries: Seq<(Algorithm, HyperparameterArgs)>) -> Seq<
    (AlgorithmView, Map<Seq<char>, Seq<char>>),
> {
    entries.map_values(|e: (Algorithm, HyperparameterArgs)| (e.0@, e.1.by_name()))
}

impl View for HyperparameterTable {
    type V = Map<AlgorithmView, Map<Seq<char>, Seq<char>>>;

    open spec fn view(&self) -> Map<AlgorithmView, Map<Seq<char>, Seq<char>>> {
        pairs_map(table_views(self.entries@))
    }
}

impl HyperparameterTable {
    /// Each algorithm occurs once, with arguments by name.
    pub open spec fn wf(self) -> bool {
        &&& crate::arguments::keys_differ(table_views(self.entries@))
        &&& forall|i: int|
            0 <= i < self.entries@.len() ==> (#[trigger] self.entries@[i]).1 is Named
                && self.entries@[i].1.wf()
    }

    fn new() -> (r: Self)
        ensures
            r.wf(),
            r@ == (Map::<AlgorithmView, Map<Seq<char>, Seq<char>>>::empty()),
    {
        HyperparameterTable { entries: Vec::new() }
    }

    fn push(&mut self, algorithm: Algorithm, args: ArgMap)
        requires
            old(self).wf(),
            args.wf(),
            !old(self)@.contains_key(algorithm@),
        ensures
            final(self).wf(),
            final(self)@ == old(self)@.insert(algorithm@, args@),
    {
        let ghost before = table_views(self.entries@);
        let ghost pair = (algorithm@, args@);
        proof {
            crate::arguments::lemma_pairs_map(before);
        }
        self.entries.push((algorithm, HyperparameterArgs::Named(args)));
        proof {
            let now = table_views(self.entries@);
            assert(now =~= before.push(pair));
            assert(now.drop_last() =~= before);
            assert forall|i: int, j: int| 0 <= i < j < now.len() implies now[i].0 != now[j].0 by {
                if j < before.len() {
                    assert(before[i].0 != before[j].0);
                } else {
                    assert(pairs_map(before).contains_key(before[i].0));
                }
            }
        }
    }

    /// The arguments of an algorithm.
    pub fn get(&self, algorithm: &Algorithm) -> (r: Option<&ArgMap>)
        requires
            self.wf(),
        ensures
            r is Some <==> self@.contains_key(algorithm@),
            r matches Some(args) ==> args.wf() && args@ == self@[algorithm@],
    {
        let ghost views = table_views(self.entries@);
        proof {
            crate::arguments::lemma_pairs_map(views);
        }
        let mut i: usize = 0;
        while i < self.entries.len()
            invariant
                self.wf(),
                views == table_views(self.entries@),
                i <= self.entries@.len(),
                forall|k: int| 0 <= k < i ==> (#[trigger] self.entries@[k]).0@ != algorithm@,
                forall|k: int|
                    0 <= k < views.len() ==> self@[(#[trigger] views[k]).0] == views[k].1,
                forall|k: int|
                    0 <= k < views.len() ==> self@.contains_key((#[trigger] views[k]).0),
            decreases self.entries@.len() - i,
        {
            if self.entries[i].0.same_as(algorithm) {
                proof {
                    assert(views[i as int].0 == algorithm@);
                }
                if let HyperparameterArgs::Named(args) = &self.entries[i].1 {
                    return Some(args);
                }
            }
            i = i + 1;
        }
        proof {
            if self@.contains_key(algorithm@) {
                let k = choose|k: int| 0 <= k < views.len() && (#[trigger] views[k]).0 == algorithm@;
                assert(self.entries@[k].0@ == algorithm@);
            }
        }
        None
    }

    pub fn contains_key(&self, algorithm: &Algorithm) -> (r: bool)
        requires
            self.wf(),
        ensures
            r == self@.contains_key(algorithm@),
    {
        self.get(algorithm).is_some()
    }

    pub fn len(&self) -> (r: usize)
        requires
            self.wf(),
        ensures
            r == self@.dom().len(),
    {
        proof {
            crate::arguments::lemma_pairs_map(table_views(self.entries@));
        }
        self.entries.len()
    }
}

/// The arguments of the algorithms asked for: of one, or of all that the configuration knows. A
/// custom algorithm is entered under the name asked for, or else under its own.
pub open spec fn arguments_of(c: HyperparameterConfig, asked: Option<AlgorithmView>) -> Map<
    AlgorithmView,
    Map<Seq<char>, Seq<char>>,
> {
    Map::new(
        |a: AlgorithmView|
            {
                &&& asked is None || asked == Some(a)
                &&& match a {
                    AlgorithmView::DDPG => c.ddpg is Some,
                    AlgorithmView::PPO => c.ppo is Some,
                    AlgorithmView::REINFORCE => c.reinforce is Some,
                    AlgorithmView::TD3 => c.td3 is Some,
                    AlgorithmView::CUSTOM(name) => c.custom is Some && (asked is Some || name
                        == algorithm_name(c.custom->0.algorithm_name@)),
                    AlgorithmView::ConfigInit => false,
                }
            },
        |a: AlgorithmView|
            match a {
                AlgorithmView::DDPG => c.ddpg->0.named(),
                AlgorithmView::PPO => c.ppo->0.named(),
                AlgorithmView::REINFORCE => c.reinforce->0.named(),
                AlgorithmView::TD3 => c.td3->0.named(),
                _ => c.custom->0.named(),
            },
    )
}

impl HyperparameterConfig {
    /// The arguments of a custom algorithm hold each name once.
    pub open spec fn wf(self) -> bool {
        self.custom matches Some(custom) ==> custom.hyperparams.wf()
    }

    /// The arguments of the algorithms asked for.
    pub fn to_args(&self, algorithm: Option<&Algorithm>) -> (r: HyperparameterTable)
        requires
            self.wf(),
        ensures
            r.wf(),
            r@ == arguments_of(
                *self,
                match algorithm {
                    Some(a) => Some(a@),
                    None => None,
                },
            ),
            self.ddpg matches Some(p) ==> (algorithm is None || algorithm->0@ is DDPG ==> {
                let written = r@[AlgorithmView::DDPG];
                &&& r@.contains_key(AlgorithmView::DDPG)
                &&& written.contains_key("seed"@) && written["seed"@] == decimal(p.seed as nat)
                &&& written.contains_key("gamma"@) && written["gamma"@] == p.gamma.text@
                &&& written.contains_key("tau"@) && written["tau"@] == p.tau.text@
                &&& written.contains_key("learning_rate"@) && written["learning_rate"@] == p.learning_rate.text@
                &&& written.contains_key("batch_size"@) && written["batch_size"@] == decimal(p.batch_size as nat)
                &&& written.contains_key("buffer_size"@) && written["buffer_size"@] == decimal(p.buffer_size as nat)
                &&& written.contains_key("learning_starts"@) && written["learning_starts"@] == decimal(p.learning_starts as nat)
                &&& written.contains_key("policy_frequency"@) && written["policy_frequency"@] == decimal(p.policy_frequency as nat)
                &&& written.contains_key("noise_scale"@) && written["noise_scale"@] == p.noise_scale.text@
                &&& written.contains_key("train_iters"@) && written["train_iters"@] == decimal(p.train_iters as nat)
            }),
            self.ppo matches Some(p) ==> (algorithm is None || algorithm->0@ is PPO ==> {
                let written = r@[AlgorithmView::PPO];
                &&& r@.contains_key(AlgorithmView::PPO)
                &&& written.contains_key("discrete"@) && written["discrete"@] == bool_chars(p.discrete)
                &&& written.contains_key("seed"@) && written["seed"@] == decimal(p.seed as nat)
                &&& written.contains_key("traj_per_epoch"@) && written["traj_per_epoch"@] == decimal(p.traj_per_epoch as nat)
                &&& written.contains_key("clip_ratio"@) && written["clip_ratio"@] == p.clip_ratio.text@
                &&& written.contains_key("gamma"@) && written["gamma"@] == p.gamma.text@
                &&& written.contains_key("lam"@) && written["lam"@] == p.lam.text@
                &&& written.contains_key("pi_lr"@) && written["pi_lr"@] == p.pi_lr.text@
                &&& written.contains_key("vf_lr"@) && written["vf_lr"@] == p.vf_lr.text@
                &&& written.contains_key("train_pi_iters"@) && written["train_pi_iters"@] == decimal(p.train_pi_iters as nat)
                &&& written.contains_key("train_v_iters"@) && written["train_v_iters"@] == decimal(p.train_v_iters as nat)
                &&& written.contains_key("target_kl"@) && written["target_kl"@] == p.target_kl.text@
            }),
            self.reinforce matches Some(p) ==> (algorithm is None || algorithm->0@ is REINFORCE ==> {
                let written = r@[AlgorithmView::REINFORCE];
                &&& r@.contains_key(AlgorithmView::REINFORCE)
                &&& written.contains_key("discrete"@) && written["discrete"@] == bool_chars(p.discrete)
                &&& written.contains_key("with_vf_baseline"@) && written["with_vf_baseline"@] == bool_chars(p.with_vf_baseline)
                &&& written.contains_key("seed"@) && written["seed"@] == decimal(p.seed as nat)
                &&& written.contains_key("traj_per_epoch"@) && written["traj_per_epoch"@] == decimal(p.traj_per_epoch as nat)
                &&& written.contains_key("gamma"@) && written["gamma"@] == p.gamma.text@
                &&& written.contains_key("lam"@) && written["lam"@] == p.lam.text@
                &&& written.contains_key("pi_lr"@) && written["pi_lr"@] == p.pi_lr.text@
                &&& written.contains_key("vf_lr"@) && written["vf_lr"@] == p.vf_lr.text@
                &&& written.contains_key("train_vf_iters"@) && written["train_vf_iters"@] == decimal(p.train_vf_iters as nat)
            }),
            self.td3 matches Some(p) ==> (algorithm is None || algorithm->0@ is TD3 ==> {
                let written = r@[AlgorithmView::TD3];
                &&& r@.contains_key(AlgorithmView::TD3)
                &&& written.contains_key("seed"@) && written["seed"@] == decimal(p.seed as nat)
                &&& written.contains_key("gamma"@) && written["gamma"@] == p.gamma.text@
                &&& written.contains_key("tau"@) && written["tau"@] == p.tau.text@
                &&& written.contains_key("learning_rate"@) && written["learning_rate"@] == p.learning_rate.text@
                &&& written.contains_key("batch_size"@) && written["batch_size"@] == decimal(p.batch_size as nat)
                &&& written.contains_key("buffer_size"@) && written["buffer_size"@] == decimal(p.buffer_size as nat)
                &&& written.contains_key("exploration_noise"@) && written["exploration_noise"@] == p.exploration_noise.text@
                &&& written.contains_key("policy_noise"@) && written["policy_noise"@] == p.policy_noise.text@
                &&& written.contains_key("noise_clip"@) && written["noise_clip"@] == p.noise_clip.text@
                &&& written.contains_key("learning_starts"@) && written["learning_starts"@] == decimal(p.learning_starts as nat)
                &&& written.contains_key("policy_frequency"@) && written["policy_frequency"@] == decimal(p.policy_frequency as nat)
            }),
    {
        let mut table = HyperparameterTable::new();
        let ghost asked: Option<AlgorithmView> = match algorithm {
            Some(a) => Some(a@),
            None => None,
        };
        let all: bool = algorithm.is_none();
        if let Some(ddpg) = &self.ddpg {
            if all || matches!(algorithm, Some(Algorithm::DDPG)) {
                table.push(Algorithm::DDPG, ddpg.to_map());
            }
        }
        if let Some(ppo) = &self.ppo {
            if all || matches!(algorithm, Some(Algorithm::PPO)) {
                table.push(Algorithm::PPO, ppo.to_map());
            }
        }
        if let Some(reinforce) = &self.reinforce {
            if all || matches!(algorithm, Some(Algorithm::REINFORCE)) {
                table.push(Algorithm::REINFORCE, reinforce.to_map());
            }
        }
        if let Some(td3) = &self.td3 {
            if all || matches!(algorithm, Some(Algorithm::TD3)) {
                table.push(Algorithm::TD3, td3.to_map());
            }
        }
        if let Some(custom) = &self.custom {
            match algorithm {
                None => {
                    let name = custom.algorithm_name.as_str().to_owned();
                    table.push(Algorithm::CUSTOM(name), custom.to_map());
                },
                Some(Algorithm::CUSTOM(name)) => {
                    table.push(Algorithm::CUSTOM(name.clone()), custom.to_map());
                },
                _ => {},
            }
        }
        proof {
            assert(table@ =~= arguments_of(*self, asked));
            law_ddpg_is_written_by_name(self.ddpg->0);
            law_ppo_is_written_by_name(self.ppo->0);
            law_reinforce_is_written_by_name(self.reinforce->0);
            law_td3_is_written_by_name(self.td3->0);
        }
        table
    }
}

impl Default for HyperparameterConfig {
    fn default() -> (r: Self)
        ensures
            r.wf(),
            r.ddpg is None,
            r.ppo is None,
            r.td3 is None,
            r.custom is None,
            r.reinforce is Some,
            r.reinforce->0.set_by(Map::empty(), Map::empty()),
    {
        HyperparameterConfig {
            ddpg: None,
            ppo: None,
            reinforce: Some(REINFORCEParams::default()),
            td3: None,
            custom: None,
        }
    }
}

/// Whether two configurations hold the same parameters.
pub open spec fn same_config(a: HyperparameterConfig, b: HyperparameterConfig) -> bool {
    &&& a.ddpg == b.ddpg
    &&& a.ppo == b.ppo
    &&& a.reinforce == b.reinforce
    &&& a.td3 == b.td3
    &&& a.custom is Some <==> b.custom is Some
    &&& a.custom matches Some(custom) ==> custom.algorithm_name == b.custom->0.algorithm_name
        && custom.hyperparams@ == b.custom->0.hyperparams@
}

impl Clone for HyperparameterConfig {
    fn clone(&self) -> (r: Self)
        ensures
            same_config(r, *self),
            self.wf() ==> r.wf(),
    {
        HyperparameterConfig {
            ddpg: match &self.ddpg {
                Some(p) => Some(p.clone()),
                None => None,
            },
            ppo: match &self.ppo {
                Some(p) => Some(p.clone()),
                None => None,
            },
            reinforce: match &self.reinforce {
                Some(p) => Some(p.clone()),
                None => None,
            },
            td3: match &self.td3 {
                Some(p) => Some(p.clone()),
                None => None,
            },
            custom: match &self.custom {
                Some(p) => Some(p.clone()),
                None => None,
            },
        }
    }
}

/// The configuration that arguments for one algorithm make: that algorithm with what the arguments
/// set, the other built-in ones with their defaults, and a custom one only if it is the one meant.
pub open spec fn configured(
    algorithm: AlgorithmView,
    args: Map<Seq<char>, Seq<char>>,
    readings: Map<Seq<char>, Seq<char>>,
    c: HyperparameterConfig,
) -> bool {
    let none = Map::<Seq<char>, Seq<char>>::empty();
    &&& c.wf()
    &&& c.ddpg is Some
    &&& c.ddpg->0.set_by(if algorithm is DDPG { args } else { none }, readings)
    &&& c.ppo is Some
    &&& c.ppo->0.set_by(if algorithm is PPO { args } else { none }, readings)
    &&& c.reinforce is Some
    &&& c.reinforce->0.set_by(if algorithm is REINFORCE { args } else { none }, readings)
    &&& c.td3 is Some
    &&& c.td3->0.set_by(if algorithm is TD3 { args } else { none }, readings)
    &&& match algorithm {
        AlgorithmView::CUSTOM(name) => c.custom is Some && c.custom->0.algorithm_name@ == algorithm
            && c.custom->0.hyperparams@ == args,
        _ => c.custom is None,
    }
}

/// Makes the configuration that arguments for one algorithm describe. There is none for the
/// algorithm that only stands for what a configuration says.
pub fn configure(algorithm: Algorithm, args: &ArgMap, readings: &ArgMap) -> (r: Option<
    HyperparameterConfig,
>)
    requires
        args.wf(),
        readings.wf(),
    ensures
        r is None <==> algorithm is ConfigInit,
        r matches Some(c) ==> configured(algorithm@, args@, readings@, c),
{
    let none = ArgMap::new();
    let ddpg = DDPGParams::from_args(
        if let Algorithm::DDPG = &algorithm {
            args
        } else {
            &none
        },
        readings,
    );
    let ppo = PPOParams::from_args(
        if let Algorithm::PPO = &algorithm {
            args
        } else {
            &none
        },
        readings,
    );
    let reinforce = REINFORCEParams::from_args(
        if let Algorithm::REINFORCE = &algorithm {
            args
        } else {
            &none
        },
        readings,
    );
    let td3 = TD3Params::from_args(
        if let Algorithm::TD3 = &algorithm {
            args
        } else {
            &none
        },
        readings,
    );
    let custom = match algorithm {
        Algorithm::ConfigInit => {
            return None;
        },
        Algorithm::CUSTOM(name) => Some(
            CustomAlgorithmParams {
                algorithm_name: Algorithm::CUSTOM(name),
                hyperparams: args.clone(),
            },
        ),
        _ => None,
    };
    Some(
        HyperparameterConfig {
            ddpg: Some(ddpg),
            ppo: Some(ppo),
            reinforce: Some(reinforce),
            td3: Some(td3),
            custom,
        },
    )
}

/// Whether a text reads as the number that it is the shortest form of.
pub open spec fn reads_as_itself(readings: Map<Seq<char>, Seq<char>>, text: Seq<char>) -> bool {
    readings.contains_key(text) && readings[text] == text
}

impl DDPGParams {
    /// Whether each of the numbers that need not be whole reads as itself.
    pub open spec fn reads_back(self, readings: Map<Seq<char>, Seq<char>>) -> bool {
        &&& reads_as_itself(readings, self.gamma.text@)
        &&& reads_as_itself(readings, self.tau.text@)
        &&& reads_as_itself(readings, self.learning_rate.text@)
        &&& reads_as_itself(readings, self.noise_scale.text@)
    }

    /// Whether these are the same hyperparameters.
    pub open spec fn same_as(self, other: Self) -> bool {
        &&& self.seed == other.seed
        &&& self.gamma.text@ == other.gamma.text@
        &&& self.tau.text@ == other.tau.text@
        &&& self.learning_rate.text@ == other.learning_rate.text@
        &&& self.batch_size == other.batch_size
        &&& self.buffer_size == other.buffer_size
        &&& self.learning_starts == other.learning_starts
        &&& self.policy_frequency == other.policy_frequency
        &&& self.noise_scale.text@ == other.noise_scale.text@
        &&& self.train_iters == other.train_iters
    }
}

impl PPOParams {
    /// Whether each of the numbers that need not be whole reads as itself.
    pub open spec fn reads_back(self, readings: Map<Seq<char>, Seq<char>>) -> bool {
        &&& reads_as_itself(readings, self.clip_ratio.text@)
        &&& reads_as_itself(readings, self.gamma.text@)
        &&& reads_as_itself(readings, self.lam.text@)
        &&& reads_as_itself(readings, self.pi_lr.text@)
        &&& reads_as_itself(readings, self.vf_lr.text@)
        &&& reads_as_itself(readings, self.target_kl.text@)
    }

    /// Whether these are the same hyperparameters.
    pub open spec fn same_as(self, other: Self) -> bool {
        &&& self.discrete == other.discrete
        &&& self.seed == other.seed
        &&& self.traj_per_epoch == other.traj_per_epoch
        &&& self.clip_ratio.text@ == other.clip_ratio.text@
        &&& self.gamma.text@ == other.gamma.text@
        &&& self.lam.text@ == other.lam.text@
        &&& self.pi_lr.text@ == other.pi_lr.text@
        &&& self.vf_lr.text@ == other.vf_lr.text@
        &&& self.train_pi_iters == other.train_pi_iters
        &&& self.train_v_iters == other.train_v_iters
        &&& self.target_kl.text@ == other.target_kl.text@
    }
}

impl REINFORCEParams {
    /// Whether each of the numbers that need not be whole reads as itself.
    pub open spec fn reads_back(self, readings: Map<Seq<char>, Seq<char>>) -> bool {
        &&& reads_as_itself(readings, self.gamma.text@)
        &&& reads_as_itself(readings, self.lam.text@)
        &&& reads_as_itself(readings, self.pi_lr.text@)
        &&& reads_as_itself(readings, self.vf_lr.text@)
    }

    /// Whether these are the same hyperparameters.
    pub open spec fn same_as(self, other: Self) -> bool {
        &&& self.discrete == other.discrete
        &&& self.with_vf_baseline == other.with_vf_baseline
        &&& self.seed == other.seed
        &&& self.traj_per_epoch == other.traj_per_epoch
        &&& self.gamma.text@ == other.gamma.text@
        &&& self.lam.text@ == other.lam.text@
        &&& self.pi_lr.text@ == other.pi_lr.text@
        &&& self.vf_lr.text@ == other.vf_lr.text@
        &&& self.train_vf_iters == other.train_vf_iters
    }
}

impl TD3Params {
    /// Whether each of the numbers that need not be whole reads as itself.
    pub open spec fn reads_back(self, readings: Map<Seq<char>, Seq<char>>) -> bool {
        &&& reads_as_itself(readings, self.gamma.text@)
        &&& reads_as_itself(readings, self.tau.text@)
        &&& reads_as_itself(readings, self.learning_rate.text@)
        &&& reads_as_itself(readings, self.exploration_noise.text@)
        &&& reads_as_itself(readings, self.policy_noise.text@)
        &&& reads_as_itself(readings, self.noise_clip.text@)
    }

    /// Whether these are the same hyperparameters.
    pub open spec fn same_as(self, other: Self) -> bool {
        &&& self.seed == other.seed
        &&& self.gamma.text@ == other.gamma.text@
        &&& self.tau.text@ == other.tau.text@
        &&& self.learning_rate.text@ == other.learning_rate.text@
        &&& self.batch_size == other.batch_size
        &&& self.buffer_size == other.buffer_size
        &&& self.exploration_noise.text@ == other.exploration_noise.text@
        &&& self.policy_noise.text@ == other.policy_noise.text@
        &&& self.noise_clip.text@ == other.noise_clip.text@
        &&& self.learning_starts == other.learning_starts
        &&& self.policy_frequency == other.policy_frequency
    }
}

/// A truth value survives being written out and read back.
pub proof fn law_flag_survives_writing(b: bool)
    ensures
        says_yes(bool_chars(b)) == b,
{
    lemma_bool_is_lower_case(b);
    reveal_strlit("true");
    reveal_strlit("false");
    reveal_strlit("1");
    reveal_strlit("yes");
    assert("true"@.len() == 4 && "false"@.len() == 5 && "1"@.len() == 1 && "yes"@.len() == 3);
}

/// The hyperparameters of DDPG survive being written out as arguments and read back.
pub proof fn law_ddpg_survives_arguments(
    p: DDPGParams,
    q: DDPGParams,
    readings: Map<Seq<char>, Seq<char>>,
)
    requires
        q.set_by(p.named(), readings),
        p.reads_back(readings),
    ensures
        q.same_as(p),
{
    reveal_strlit("seed");
    reveal_strlit("gamma");
    reveal_strlit("tau");
    reveal_strlit("learning_rate");
    reveal_strlit("batch_size");
    reveal_strlit("buffer_size");
    reveal_strlit("learning_starts");
    reveal_strlit("policy_frequency");
    reveal_strlit("noise_scale");
    reveal_strlit("train_iters");
    assert("seed"@.len() == 4);
    assert("gamma"@.len() == 5);
    assert("tau"@.len() == 3);
    assert("learning_rate"@.len() == 13);
    assert("batch_size"@.len() == 10);
    assert("buffer_size"@.len() == 11 && "buffer_size"@[0] == 'b');
    assert("learning_starts"@.len() == 15);
    assert("policy_frequency"@.len() == 16);
    assert("noise_scale"@.len() == 11 && "noise_scale"@[0] == 'n');
    assert("train_iters"@.len() == 11 && "train_iters"@[0] == 't');
    let args = p.named();
    assert(args.contains_key("seed"@) && args["seed"@] == decimal(p.seed as nat));
    law_number_survives_writing(p.seed);
    assert(args.contains_key("gamma"@) && args["gamma"@] == p.gamma.text@);
    assert(args.contains_key("tau"@) && args["tau"@] == p.tau.text@);
    assert(args.contains_key("learning_rate"@) && args["learning_rate"@] == p.learning_rate.text@);
    assert(args.contains_key("batch_size"@) && args["batch_size"@] == decimal(p.batch_size as nat));
    law_number_survives_writing(p.batch_size);
    assert(args.contains_key("buffer_size"@) && args["buffer_size"@] == decimal(p.buffer_size as nat));
    law_number_survives_writing(p.buffer_size);
    assert(args.contains_key("learning_starts"@) && args["learning_starts"@] == decimal(p.learning_starts as nat));
    law_number_survives_writing(p.learning_starts);
    assert(args.contains_key("policy_frequency"@) && args["policy_frequency"@] == decimal(p.policy_frequency as nat));
    law_number_survives_writing(p.policy_frequency);
    assert(args.contains_key("noise_scale"@) && args["noise_scale"@] == p.noise_scale.text@);
    assert(args.contains_key("train_iters"@) && args["train_iters"@] == decimal(p.train_iters as nat));
    law_number_survives_writing(p.train_iters);
}

/// The hyperparameters of PPO survive being written out as arguments and read back.
pub proof fn law_ppo_survives_arguments(
    p: PPOParams,
    q: PPOParams,
    readings: Map<Seq<char>, Seq<char>>,
)
    requires
        q.set_by(p.named(), readings),
        p.reads_back(readings),
    ensures
        q.same_as(p),
{
    reveal_strlit("discrete");
    reveal_strlit("seed");
    reveal_strlit("traj_per_epoch");
    reveal_strlit("clip_ratio");
    reveal_strlit("gamma");
    reveal_strlit("lam");
    reveal_strlit("pi_lr");
    reveal_strlit("vf_lr");
    reveal_strlit("train_pi_iters");
    reveal_strlit("train_v_iters");
    reveal_strlit("target_kl");
    assert("discrete"@.len() == 8);
    assert("seed"@.len() == 4);
    assert("traj_per_epoch"@.len() == 14 && "traj_per_epoch"@[3] == 'j');
    assert("clip_ratio"@.len() == 10);
    assert("gamma"@.len() == 5 && "gamma"@[0] == 'g');
    assert("lam"@.len() == 3);
    assert("pi_lr"@.len() == 5 && "pi_lr"@[0] == 'p');
    assert("vf_lr"@.len() == 5 && "vf_lr"@[0] == 'v');
    assert("train_pi_iters"@.len() == 14 && "train_pi_iters"@[3] == 'i');
    assert("train_v_iters"@.len() == 13);
    assert("target_kl"@.len() == 9);
    let args = p.named();
    assert(args.contains_key("discrete"@) && args["discrete"@] == bool_chars(p.discrete));
    law_flag_survives_writing(p.discrete);
    assert(args.contains_key("seed"@) && args["seed"@] == decimal(p.seed as nat));
    law_number_survives_writing(p.seed);
    assert(args.contains_key("traj_per_epoch"@) && args["traj_per_epoch"@] == decimal(p.traj_per_epoch as nat));
    law_number_survives_writing(p.traj_per_epoch);
    assert(args.contains_key("clip_ratio"@) && args["clip_ratio"@] == p.clip_ratio.text@);
    assert(args.contains_key("gamma"@) && args["gamma"@] == p.gamma.text@);
    assert(args.contains_key("lam"@) && args["lam"@] == p.lam.text@);
    assert(args.contains_key("pi_lr"@) && args["pi_lr"@] == p.pi_lr.text@);
    assert(args.contains_key("vf_lr"@) && args["vf_lr"@] == p.vf_lr.text@);
    assert(args.contains_key("train_pi_iters"@) && args["train_pi_iters"@] == decimal(p.train_pi_iters as nat));
    law_number_survives_writing(p.train_pi_iters);
    assert(args.contains_key("train_v_iters"@) && args["train_v_iters"@] == decimal(p.train_v_iters as nat));
    law_number_survives_writing(p.train_v_iters);
    assert(args.contains_key("target_kl"@) && args["target_kl"@] == p.target_kl.text@);
}

/// The hyperparameters of REINFORCE survive being written out as arguments and read back.
pub proof fn law_reinforce_survives_arguments(
    p: REINFORCEParams,
    q: REINFORCEParams,
    readings: Map<Seq<char>, Seq<char>>,
)
    requires
        q.set_by(p.named(), readings),
        p.reads_back(readings),
    ensures
        q.same_as(p),
{
    reveal_strlit("discrete");
    reveal_strlit("with_vf_baseline");
    reveal_strlit("seed");
    reveal_strlit("traj_per_epoch");
    reveal_strlit("gamma");
    reveal_strlit("lam");
    reveal_strlit("pi_lr");
    reveal_strlit("vf_lr");
    reveal_strlit("train_vf_iters");
    assert("discrete"@.len() == 8);
    assert("with_vf_baseline"@.len() == 16);
    assert("seed"@.len() == 4);
    assert("traj_per_epoch"@.len() == 14 && "traj_per_epoch"@[3] == 'j');
    assert("gamma"@.len() == 5 && "gamma"@[0] == 'g');
    assert("lam"@.len() == 3);
    assert("pi_lr"@.len() == 5 && "pi_lr"@[0] == 'p');
    assert("vf_lr"@.len() == 5 && "vf_lr"@[0] == 'v');
    assert("train_vf_iters"@.len() == 14 && "train_vf_iters"@[3] == 'i');
    let args = p.named();
    assert(args.contains_key("discrete"@) && args["discrete"@] == bool_chars(p.discrete));
    law_flag_survives_writing(p.discrete);
    assert(args.contains_key("with_vf_baseline"@) && args["with_vf_baseline"@] == bool_chars(p.with_vf_baseline));
    law_flag_survives_writing(p.with_vf_baseline);
    assert(args.contains_key("seed"@) && args["seed"@] == decimal(p.seed as nat));
    law_number_survives_writing(p.seed);
    assert(args.contains_key("traj_per_epoch"@) && args["traj_per_epoch"@] == decimal(p.traj_per_epoch as nat));
    law_number_survives_writing(p.traj_per_epoch);
    assert(args.contains_key("gamma"@) && args["gamma"@] == p.gamma.text@);
    assert(args.contains_key("lam"@) && args["lam"@] == p.lam.text@);
    assert(args.contains_key("pi_lr"@) && args["pi_lr"@] == p.pi_lr.text@);
    assert(args.contains_key("vf_lr"@) && args["vf_lr"@] == p.vf_lr.text@);
    assert(args.contains_key("train_vf_iters"@) && args["train_vf_iters"@] == decimal(p.train_vf_iters as nat));
    law_number_survives_writing(p.train_vf_iters);
}

/// The hyperparameters of TD3 survive being written out as arguments and read back.
pub proof fn law_td3_survives_arguments(
    p: TD3Params,
    q: TD3Params,
    readings: Map<Seq<char>, Seq<char>>,
)
    requires
        q.set_by(p.named(), readings),
        p.reads_back(readings),
    ensures
        q.same_as(p),
{
    reveal_strlit("seed");
    reveal_strlit("gamma");
    reveal_strlit("tau");
    reveal_strlit("learning_rate");
    reveal_strlit("batch_size");
    reveal_strlit("buffer_size");
    reveal_strlit("exploration_noise");
    reveal_strlit("policy_noise");
    reveal_strlit("noise_clip");
    reveal_strlit("learning_starts");
    reveal_strlit("policy_frequency");
    assert("seed"@.len() == 4);
    assert("gamma"@.len() == 5);
    assert("tau"@.len() == 3);
    assert("learning_rate"@.len() == 13);
    assert("batch_size"@.len() == 10 && "batch_size"@[0] == 'b');
    assert("buffer_size"@.len() == 11);
    assert("exploration_noise"@.len() == 17);
    assert("policy_noise"@.len() == 12);
    assert("noise_clip"@.len() == 10 && "noise_clip"@[0] == 'n');
    assert("learning_starts"@.len() == 15);
    assert("policy_frequency"@.len() == 16);
    let args = p.named();
    assert(args.contains_key("seed"@) && args["seed"@] == decimal(p.seed as nat));
    law_number_survives_writing(p.seed);
    assert(args.contains_key("gamma"@) && args["gamma"@] == p.gamma.text@);
    assert(args.contains_key("tau"@) && args["tau"@] == p.tau.text@);
    assert(args.contains_key("learning_rate"@) && args["learning_rate"@] == p.learning_rate.text@);
    assert(args.contains_key("batch_size"@) && args["batch_size"@] == decimal(p.batch_size as nat));
    law_number_survives_writing(p.batch_size);
    assert(args.contains_key("buffer_size"@) && args["buffer_size"@] == decimal(p.buffer_size as nat));
    law_number_survives_writing(p.buffer_size);
    assert(args.contains_key("exploration_noise"@) && args["exploration_noise"@] == p.exploration_noise.text@);
    assert(args.contains_key("policy_noise"@) && args["policy_noise"@] == p.policy_noise.text@);
    assert(args.contains_key("noise_clip"@) && args["noise_clip"@] == p.noise_clip.text@);
    assert(args.contains_key("learning_starts"@) && args["learning_starts"@] == decimal(p.learning_starts as nat));
    law_number_survives_writing(p.learning_starts);
    assert(args.contains_key("policy_frequency"@) && args["policy_frequency"@] == decimal(p.policy_frequency as nat));
    law_number_survives_writing(p.policy_frequency);
}

/// Asking for the arguments of one built-in algorithm gives what asking for all gives for it, and
/// nothing else.
pub proof fn law_one_algorithm_of_all(c: HyperparameterConfig, a: AlgorithmView)
    requires
        !(a is CUSTOM),
    ensures
        forall|b: AlgorithmView| #[trigger]
            arguments_of(c, Some(a)).contains_key(b) <==> b == a && arguments_of(
                c,
                None,
            ).contains_key(a),
        arguments_of(c, Some(a)).contains_key(a) ==> arguments_of(c, Some(a))[a] == arguments_of(
            c,
            None,
        )[a],
{
}

/// Setting the hyperparameters of a built-in algorithm to the arguments that a configuration was
/// written out as gives the configuration's own back.
pub proof fn law_setting_undoes_writing(
    c: HyperparameterConfig,
    a: AlgorithmView,
    readings: Map<Seq<char>, Seq<char>>,
    set: HyperparameterConfig,
)
    requires
        !(a is CUSTOM),
        arguments_of(c, Some(a)).contains_key(a),
        configured(
            algorithm_named(in_upper_case(algorithm_name(a))),
            arguments_of(c, Some(a))[a],
            readings,
            set,
        ),
        a is DDPG ==> c.ddpg->0.reads_back(readings),
        a is PPO ==> c.ppo->0.reads_back(readings),
        a is REINFORCE ==> c.reinforce->0.reads_back(readings),
        a is TD3 ==> c.td3->0.reads_back(readings),
    ensures
        match a {
            AlgorithmView::DDPG => set.ddpg matches Some(q) && q.same_as(c.ddpg->0),
            AlgorithmView::PPO => set.ppo matches Some(q) && q.same_as(c.ppo->0),
            AlgorithmView::REINFORCE => set.reinforce matches Some(q) && q.same_as(c.reinforce->0),
            AlgorithmView::TD3 => set.td3 matches Some(q) && q.same_as(c.td3->0),
            _ => false,
        },
{
    let name = algorithm_name(a);
    reveal_strlit("DDPG");
    reveal_strlit("PPO");
    reveal_strlit("REINFORCE");
    reveal_strlit("TD3");
    assert(is_ascii_text(name));
    assert(in_upper_case(name) =~= name);
    law_algorithm_survives_naming(a);
    match a {
        AlgorithmView::DDPG => law_ddpg_survives_arguments(c.ddpg->0, set.ddpg->0, readings),
        AlgorithmView::PPO => law_ppo_survives_arguments(c.ppo->0, set.ppo->0, readings),
        AlgorithmView::REINFORCE => law_reinforce_survives_arguments(
            c.reinforce->0,
            set.reinforce->0,
            readings,
        ),
        AlgorithmView::TD3 => law_td3_survives_arguments(c.td3->0, set.td3->0, readings),
        _ => {},
    }
}

/// Each hyperparameter of DDPG is read from the argument of its own name, if there is one that can
/// be read, and else has its default.
pub proof fn law_ddpg_is_read_by_name(
    p: DDPGParams,
    args: Map<Seq<char>, Seq<char>>,
    readings: Map<Seq<char>, Seq<char>>,
)
    requires
        p.set_by(args, readings),
    ensures
        args.contains_key("seed"@) && parsed_u32(args["seed"@]) is Some ==> p.seed == parsed_u32(
            args["seed"@],
        )->0,
        !(args.contains_key("seed"@) && parsed_u32(args["seed"@]) is Some) ==> p.seed == 1,
        args.contains_key("gamma"@) && readings.contains_key(args["gamma"@]) ==> p.gamma.text@
            == readings[args["gamma"@]],
        !(args.contains_key("gamma"@) && readings.contains_key(args["gamma"@])) ==> p.gamma.text@
            == "0.99"@,
        args.contains_key("tau"@) && readings.contains_key(args["tau"@]) ==> p.tau.text@
            == readings[args["tau"@]],
        !(args.contains_key("tau"@) && readings.contains_key(args["tau"@])) ==> p.tau.text@
            == "0.01"@,
        args.contains_key("learning_rate"@) && readings.contains_key(args["learning_rate"@]) ==> p.learning_rate.text@
            == readings[args["learning_rate"@]],
        !(args.contains_key("learning_rate"@) && readings.contains_key(args["learning_rate"@])) ==> p.learning_rate.text@
            == "0.003"@,
        args.contains_key("batch_size"@) && parsed_u32(args["batch_size"@]) is Some ==> p.batch_size == parsed_u32(
            args["batch_size"@],
        )->0,
        !(args.contains_key("batch_size"@) && parsed_u32(args["batch_size"@]) is Some) ==> p.batch_size == 128,
        args.contains_key("buffer_size"@) && parsed_u32(args["buffer_size"@]) is Some ==> p.buffer_size == parsed_u32(
            args["buffer_size"@],
        )->0,
        !(args.contains_key("buffer_size"@) && parsed_u32(args["buffer_size"@]) is Some) ==> p.buffer_size == 50000,
        args.contains_key("learning_starts"@) && parsed_u32(args["learning_starts"@]) is Some ==> p.learning_starts == parsed_u32(
            args["learning_starts"@],
        )->0,
        !(args.contains_key("learning_starts"@) && parsed_u32(args["learning_starts"@]) is Some) ==> p.learning_starts == 128,
        args.contains_key("policy_frequency"@) && parsed_u32(args["policy_frequency"@]) is Some ==> p.policy_frequency == parsed_u32(
            args["policy_frequency"@],
        )->0,
        !(args.contains_key("policy_frequency"@) && parsed_u32(args["policy_frequency"@]) is Some) ==> p.policy_frequency == 1,
        args.contains_key("noise_scale"@) && readings.contains_key(args["noise_scale"@]) ==> p.noise_scale.text@
            == readings[args["noise_scale"@]],
        !(args.contains_key("noise_scale"@) && readings.contains_key(args["noise_scale"@])) ==> p.noise_scale.text@
            == "0.1"@,
        args.contains_key("train_iters"@) && parsed_u32(args["train_iters"@]) is Some ==> p.train_iters == parsed_u32(
            args["train_iters"@],
        )->0,
        !(args.contains_key("train_iters"@) && parsed_u32(args["train_iters"@]) is Some) ==> p.train_iters == 50,
{
}

/// Each hyperparameter of DDPG is written under its own name, and nothing else is written.
pub proof fn law_ddpg_is_written_by_name(p: DDPGParams)
    ensures
        p.named().contains_key("seed"@) && p.named()["seed"@] == decimal(p.seed as nat),
        p.named().contains_key("gamma"@) && p.named()["gamma"@] == p.gamma.text@,
        p.named().contains_key("tau"@) && p.named()["tau"@] == p.tau.text@,
        p.named().contains_key("learning_rate"@) && p.named()["learning_rate"@] == p.learning_rate.text@,
        p.named().contains_key("batch_size"@) && p.named()["batch_size"@] == decimal(p.batch_size as nat),
        p.named().contains_key("buffer_size"@) && p.named()["buffer_size"@] == decimal(p.buffer_size as nat),
        p.named().contains_key("learning_starts"@) && p.named()["learning_starts"@] == decimal(p.learning_starts as nat),
        p.named().contains_key("policy_frequency"@) && p.named()["policy_frequency"@] == decimal(p.policy_frequency as nat),
        p.named().contains_key("noise_scale"@) && p.named()["noise_scale"@] == p.noise_scale.text@,
        p.named().contains_key("train_iters"@) && p.named()["train_iters"@] == decimal(p.train_iters as nat),
        forall|key: Seq<char>| #[trigger]
            p.named().contains_key(key) ==> key == "seed"@
            || key == "gamma"@
            || key == "tau"@
            || key == "learning_rate"@
            || key == "batch_size"@
            || key == "buffer_size"@
            || key == "learning_starts"@
            || key == "policy_frequency"@
            || key == "noise_scale"@
            || key == "train_iters"@,
{
    reveal_strlit("seed");
    reveal_strlit("gamma");
    reveal_strlit("tau");
    reveal_strlit("learning_rate");
    reveal_strlit("batch_size");
    reveal_strlit("buffer_size");
    reveal_strlit("learning_starts");
    reveal_strlit("policy_frequency");
    reveal_strlit("noise_scale");
    reveal_strlit("train_iters");
    assert("seed"@.len() == 4);
    assert("gamma"@.len() == 5);
    assert("tau"@.len() == 3);
    assert("learning_rate"@.len() == 13);
    assert("batch_size"@.len() == 10);
    assert("buffer_size"@.len() == 11 && "buffer_size"@[0] == 'b');
    assert("learning_starts"@.len() == 15);
    assert("policy_frequency"@.len() == 16);
    assert("noise_scale"@.len() == 11 && "noise_scale"@[0] == 'n');
    assert("train_iters"@.len() == 11 && "train_iters"@[0] == 't');
}

/// Each hyperparameter of PPO is read from the argument of its own name, if there is one that can
/// be read, and else has its default.
pub proof fn law_ppo_is_read_by_name(
    p: PPOParams,
    args: Map<Seq<char>, Seq<char>>,
    readings: Map<Seq<char>, Seq<char>>,
)
    requires
        p.set_by(args, readings),
    ensures
        args.contains_key("discrete"@) ==> p.discrete == (in_lower_case(args["discrete"@]) == "true"@ || in_lower_case(args["discrete"@]) == "1"@
            || in_lower_case(args["discrete"@]) == "yes"@),
        !args.contains_key("discrete"@) ==> p.discrete == true,
        args.contains_key("seed"@) && parsed_u32(args["seed"@]) is Some ==> p.seed == parsed_u32(
            args["seed"@],
        )->0,
        !(args.contains_key("seed"@) && parsed_u32(args["seed"@]) is Some) ==> p.seed == 0,
        args.contains_key("traj_per_epoch"@) && parsed_u32(args["traj_per_epoch"@]) is Some ==> p.traj_per_epoch == parsed_u32(
            args["traj_per_epoch"@],
        )->0,
        !(args.contains_key("traj_per_epoch"@) && parsed_u32(args["traj_per_epoch"@]) is Some) ==> p.traj_per_epoch == 1,
        args.contains_key("clip_ratio"@) && readings.contains_key(args["clip_ratio"@]) ==> p.clip_ratio.text@
            == readings[args["clip_ratio"@]],
        !(args.contains_key("clip_ratio"@) && readings.contains_key(args["clip_ratio"@])) ==> p.clip_ratio.text@
            == "0.1"@,
        args.contains_key("gamma"@) && readings.contains_key(args["gamma"@]) ==> p.gamma.text@
            == readings[args["gamma"@]],
        !(args.contains_key("gamma"@) && readings.contains_key(args["gamma"@])) ==> p.gamma.text@
            == "0.99"@,
        args.contains_key("lam"@) && readings.contains_key(args["lam"@]) ==> p.lam.text@
            == readings[args["lam"@]],
        !(args.contains_key("lam"@) && readings.contains_key(args["lam"@])) ==> p.lam.text@
            == "0.97"@,
        args.contains_key("pi_lr"@) && readings.contains_key(args["pi_lr"@]) ==> p.pi_lr.text@
            == readings[args["pi_lr"@]],
        !(args.contains_key("pi_lr"@) && readings.contains_key(args["pi_lr"@])) ==> p.pi_lr.text@
            == "0.0003"@,
        args.contains_key("vf_lr"@) && readings.contains_key(args["vf_lr"@]) ==> p.vf_lr.text@
            == readings[args["vf_lr"@]],
        !(args.contains_key("vf_lr"@) && readings.contains_key(args["vf_lr"@])) ==> p.vf_lr.text@
            == "0.0003"@,
        args.contains_key("train_pi_iters"@) && parsed_u32(args["train_pi_iters"@]) is Some ==> p.train_pi_iters == parsed_u32(
            args["train_pi_iters"@],
        )->0,
        !(args.contains_key("train_pi_iters"@) && parsed_u32(args["train_pi_iters"@]) is Some) ==> p.train_pi_iters == 40,
        args.contains_key("train_v_iters"@) && parsed_u32(args["train_v_iters"@]) is Some ==> p.train_v_iters == parsed_u32(
            args["train_v_iters"@],
        )->0,
        !(args.contains_key("train_v_iters"@) && parsed_u32(args["train_v_iters"@]) is Some) ==> p.train_v_iters == 40,
        args.contains_key("target_kl"@) && readings.contains_key(args["target_kl"@]) ==> p.target_kl.text@
            == readings[args["target_kl"@]],
        !(args.contains_key("target_kl"@) && readings.contains_key(args["target_kl"@])) ==> p.target_kl.text@
            == "0.01"@,
{
}

/// Each hyperparameter of PPO is written under its own name, and nothing else is written.
pub proof fn law_ppo_is_written_by_name(p: PPOParams)
    ensures
        p.named().contains_key("discrete"@) && p.named()["discrete"@] == bool_chars(p.discrete),
        p.named().contains_key("seed"@) && p.named()["seed"@] == decimal(p.seed as nat),
        p.named().contains_key("traj_per_epoch"@) && p.named()["traj_per_epoch"@] == decimal(p.traj_per_epoch as nat),
        p.named().contains_key("clip_ratio"@) && p.named()["clip_ratio"@] == p.clip_ratio.text@,
        p.named().contains_key("gamma"@) && p.named()["gamma"@] == p.gamma.text@,
        p.named().contains_key("lam"@) && p.named()["lam"@] == p.lam.text@,
        p.named().contains_key("pi_lr"@) && p.named()["pi_lr"@] == p.pi_lr.text@,
        p.named().contains_key("vf_lr"@) && p.named()["vf_lr"@] == p.vf_lr.text@,
        p.named().contains_key("train_pi_iters"@) && p.named()["train_pi_iters"@] == decimal(p.train_pi_iters as nat),
        p.named().contains_key("train_v_iters"@) && p.named()["train_v_iters"@] == decimal(p.train_v_iters as nat),
        p.named().contains_key("target_kl"@) && p.named()["target_kl"@] == p.target_kl.text@,
        forall|key: Seq<char>| #[trigger]
            p.named().contains_key(key) ==> key == "discrete"@
            || key == "seed"@
            || key == "traj_per_epoch"@
            || key == "clip_ratio"@
            || key == "gamma"@
            || key == "lam"@
            || key == "pi_lr"@
            || key == "vf_lr"@
            || key == "train_pi_iters"@
            || key == "train_v_iters"@
            || key == "target_kl"@,
{
    reveal_strlit("discrete");
    reveal_strlit("seed");
    reveal_strlit("traj_per_epoch");
    reveal_strlit("clip_ratio");
    reveal_strlit("gamma");
    reveal_strlit("lam");
    reveal_strlit("pi_lr");
    reveal_strlit("vf_lr");
    reveal_strlit("train_pi_iters");
    reveal_strlit("train_v_iters");
    reveal_strlit("target_kl");
    assert("discrete"@.len() == 8);
    assert("seed"@.len() == 4);
    assert("traj_per_epoch"@.len() == 14 && "traj_per_epoch"@[3] == 'j');
    assert("clip_ratio"@.len() == 10);
    assert("gamma"@.len() == 5 && "gamma"@[0] == 'g');
    assert("lam"@.len() == 3);
    assert("pi_lr"@.len() == 5 && "pi_lr"@[0] == 'p');
    assert("vf_lr"@.len() == 5 && "vf_lr"@[0] == 'v');
    assert("train_pi_iters"@.len() == 14 && "train_pi_iters"@[3] == 'i');
    assert("train_v_iters"@.len() == 13);
    assert("target_kl"@.len() == 9);
}

/// Each hyperparameter of REINFORCE is read from the argument of its own name, if there is one that can
/// be read, and else has its default.
pub proof fn law_reinforce_is_read_by_name(
    p: REINFORCEParams,
    args: Map<Seq<char>, Seq<char>>,
    readings: Map<Seq<char>, Seq<char>>,
)
    requires
        p.set_by(args, readings),
    ensures
        args.contains_key("discrete"@) ==> p.discrete == (in_lower_case(args["discrete"@]) == "true"@ || in_lower_case(args["discrete"@]) == "1"@
            || in_lower_case(args["discrete"@]) == "yes"@),
        !args.contains_key("discrete"@) ==> p.discrete == true,
        args.contains_key("with_vf_baseline"@) ==> p.with_vf_baseline == (in_lower_case(args["with_vf_baseline"@]) == "true"@ || in_lower_case(args["with_vf_baseline"@]) == "1"@
            || in_lower_case(args["with_vf_baseline"@]) == "yes"@),
        !args.contains_key("with_vf_baseline"@) ==> p.with_vf_baseline == false,
        args.contains_key("seed"@) && parsed_u32(args["seed"@]) is Some ==> p.seed == parsed_u32(
            args["seed"@],
        )->0,
        !(args.contains_key("seed"@) && parsed_u32(args["seed"@]) is Some) ==> p.seed == 1,
        args.contains_key("traj_per_epoch"@) && parsed_u32(args["traj_per_epoch"@]) is Some ==> p.traj_per_epoch == parsed_u32(
            args["traj_per_epoch"@],
        )->0,
        !(args.contains_key("traj_per_epoch"@) && parsed_u32(args["traj_per_epoch"@]) is Some) ==> p.traj_per_epoch == 8,
        args.contains_key("gamma"@) && readings.contains_key(args["gamma"@]) ==> p.gamma.text@
            == readings[args["gamma"@]],
        !(args.contains_key("gamma"@) && readings.contains_key(args["gamma"@])) ==> p.gamma.text@
            == "0.98"@,
        args.contains_key("lam"@) && readings.contains_key(args["lam"@]) ==> p.lam.text@
            == readings[args["lam"@]],
        !(args.contains_key("lam"@) && readings.contains_key(args["lam"@])) ==> p.lam.text@
            == "0.97"@,
        args.contains_key("pi_lr"@) && readings.contains_key(args["pi_lr"@]) ==> p.pi_lr.text@
            == readings[args["pi_lr"@]],
        !(args.contains_key("pi_lr"@) && readings.contains_key(args["pi_lr"@])) ==> p.pi_lr.text@
            == "0.0003"@,
        args.contains_key("vf_lr"@) && readings.contains_key(args["vf_lr"@]) ==> p.vf_lr.text@
            == readings[args["vf_lr"@]],
        !(args.contains_key("vf_lr"@) && readings.contains_key(args["vf_lr"@])) ==> p.vf_lr.text@
            == "0.001"@,
        args.contains_key("train_vf_iters"@) && parsed_u32(args["train_vf_iters"@]) is Some ==> p.train_vf_iters == parsed_u32(
            args["train_vf_iters"@],
        )->0,
        !(args.contains_key("train_vf_iters"@) && parsed_u32(args["train_vf_iters"@]) is Some) ==> p.train_vf_iters == 80,
{
}

/// Each hyperparameter of REINFORCE is written under its own name, and nothing else is written.
pub proof fn law_reinforce_is_written_by_name(p: REINFORCEParams)
    ensures
        p.named().contains_key("discrete"@) && p.named()["discrete"@] == bool_chars(p.discrete),
        p.named().contains_key("with_vf_baseline"@) && p.named()["with_vf_baseline"@] == bool_chars(p.with_vf_baseline),
        p.named().contains_key("seed"@) && p.named()["seed"@] == decimal(p.seed as nat),
        p.named().contains_key("traj_per_epoch"@) && p.named()["traj_per_epoch"@] == decimal(p.traj_per_epoch as nat),
        p.named().contains_key("gamma"@) && p.named()["gamma"@] == p.gamma.text@,
        p.named().contains_key("lam"@) && p.named()["lam"@] == p.lam.text@,
        p.named().contains_key("pi_lr"@) && p.named()["pi_lr"@] == p.pi_lr.text@,
        p.named().contains_key("vf_lr"@) && p.named()["vf_lr"@] == p.vf_lr.text@,
        p.named().contains_key("train_vf_iters"@) && p.named()["train_vf_iters"@] == decimal(p.train_vf_iters as nat),
        forall|key: Seq<char>| #[trigger]
            p.named().contains_key(key) ==> key == "discrete"@
            || key == "with_vf_baseline"@
            || key == "seed"@
            || key == "traj_per_epoch"@
            || key == "gamma"@
            || key == "lam"@
            || key == "pi_lr"@
            || key == "vf_lr"@
            || key == "train_vf_iters"@,
{
    reveal_strlit("discrete");
    reveal_strlit("with_vf_baseline");
    reveal_strlit("seed");
    reveal_strlit("traj_per_epoch");
    reveal_strlit("gamma");
    reveal_strlit("lam");
    reveal_strlit("pi_lr");
    reveal_strlit("vf_lr");
    reveal_strlit("train_vf_iters");
    assert("discrete"@.len() == 8);
    assert("with_vf_baseline"@.len() == 16);
    assert("seed"@.len() == 4);
    assert("traj_per_epoch"@.len() == 14 && "traj_per_epoch"@[3] == 'j');
    assert("gamma"@.len() == 5 && "gamma"@[0] == 'g');
    assert("lam"@.len() == 3);
    assert("pi_lr"@.len() == 5 && "pi_lr"@[0] == 'p');
    assert("vf_lr"@.len() == 5 && "vf_lr"@[0] == 'v');
    assert("train_vf_iters"@.len() == 14 && "train_vf_iters"@[3] == 'i');
}

/// Each hyperparameter of TD3 is read from the argument of its own name, if there is one that can
/// be read, and else has its default.
pub proof fn law_td3_is_read_by_name(
    p: TD3Params,
    args: Map<Seq<char>, Seq<char>>,
    readings: Map<Seq<char>, Seq<char>>,
)
    requires
        p.set_by(args, readings),
    ensures
        args.contains_key("seed"@) && parsed_u32(args["seed"@]) is Some ==> p.seed == parsed_u32(
            args["seed"@],
        )->0,
        !(args.contains_key("seed"@) && parsed_u32(args["seed"@]) is Some) ==> p.seed == 1,
        args.contains_key("gamma"@) && readings.contains_key(args["gamma"@]) ==> p.gamma.text@
            == readings[args["gamma"@]],
        !(args.contains_key("gamma"@) && readings.contains_key(args["gamma"@])) ==> p.gamma.text@
            == "0.99"@,
        args.contains_key("tau"@) && readings.contains_key(args["tau"@]) ==> p.tau.text@
            == readings[args["tau"@]],
        !(args.contains_key("tau"@) && readings.contains_key(args["tau"@])) ==> p.tau.text@
            == "0.005"@,
        args.contains_key("learning_rate"@) && readings.contains_key(args["learning_rate"@]) ==> p.learning_rate.text@
            == readings[args["learning_rate"@]],
        !(args.contains_key("learning_rate"@) && readings.contains_key(args["learning_rate"@])) ==> p.learning_rate.text@
            == "0.0003"@,
        args.contains_key("batch_size"@) && parsed_u32(args["batch_size"@]) is Some ==> p.batch_size == parsed_u32(
            args["batch_size"@],
        )->0,
        !(args.contains_key("batch_size"@) && parsed_u32(args["batch_size"@]) is Some) ==> p.batch_size == 128,
        args.contains_key("buffer_size"@) && parsed_u32(args["buffer_size"@]) is Some ==> p.buffer_size == parsed_u32(
            args["buffer_size"@],
        )->0,
        !(args.contains_key("buffer_size"@) && parsed_u32(args["buffer_size"@]) is Some) ==> p.buffer_size == 50000,
        args.contains_key("exploration_noise"@) && readings.contains_key(args["exploration_noise"@]) ==> p.exploration_noise.text@
            == readings[args["exploration_noise"@]],
        !(args.contains_key("exploration_noise"@) && readings.contains_key(args["exploration_noise"@])) ==> p.exploration_noise.text@
            == "0.1"@,
        args.contains_key("policy_noise"@) && readings.contains_key(args["policy_noise"@]) ==> p.policy_noise.text@
            == readings[args["policy_noise"@]],
        !(args.contains_key("policy_noise"@) && readings.contains_key(args["policy_noise"@])) ==> p.policy_noise.text@
            == "0.2"@,
        args.contains_key("noise_clip"@) && readings.contains_key(args["noise_clip"@]) ==> p.noise_clip.text@
            == readings[args["noise_clip"@]],
        !(args.contains_key("noise_clip"@) && readings.contains_key(args["noise_clip"@])) ==> p.noise_clip.text@
            == "0.5"@,
        args.contains_key("learning_starts"@) && parsed_u32(args["learning_starts"@]) is Some ==> p.learning_starts == parsed_u32(
            args["learning_starts"@],
        )->0,
        !(args.contains_key("learning_starts"@) && parsed_u32(args["learning_starts"@]) is Some) ==> p.learning_starts == 25000,
        args.contains_key("policy_frequency"@) && parsed_u32(args["policy_frequency"@]) is Some ==> p.policy_frequency == parsed_u32(
            args["policy_frequency"@],
        )->0,
        !(args.contains_key("policy_frequency"@) && parsed_u32(args["policy_frequency"@]) is Some) ==> p.policy_frequency == 2,
{
}

/// Each hyperparameter of TD3 is written under its own name, and nothing else is written.
pub proof fn law_td3_is_written_by_name(p: TD3Params)
    ensures
        p.named().contains_key("seed"@) && p.named()["seed"@] == decimal(p.seed as nat),
        p.named().contains_key("gamma"@) && p.named()["gamma"@] == p.gamma.text@,
        p.named().contains_key("tau"@) && p.named()["tau"@] == p.tau.text@,
        p.named().contains_key("learning_rate"@) && p.named()["learning_rate"@] == p.learning_rate.text@,
        p.named().contains_key("batch_size"@) && p.named()["batch_size"@] == decimal(p.batch_size as nat),
        p.named().contains_key("buffer_size"@) && p.named()["buffer_size"@] == decimal(p.buffer_size as nat),
        p.named().contains_key("exploration_noise"@) && p.named()["exploration_noise"@] == p.exploration_noise.text@,
        p.named().contains_key("policy_noise"@) && p.named()["policy_noise"@] == p.policy_noise.text@,
        p.named().contains_key("noise_clip"@) && p.named()["noise_clip"@] == p.noise_clip.text@,
        p.named().contains_key("learning_starts"@) && p.named()["learning_starts"@] == decimal(p.learning_starts as nat),
        p.named().contains_key("policy_frequency"@) && p.named()["policy_frequency"@] == decimal(p.policy_frequency as nat),
        forall|key: Seq<char>| #[trigger]
            p.named().contains_key(key) ==> key == "seed"@
            || key == "gamma"@
            || key == "tau"@
            || key == "learning_rate"@
            || key == "batch_size"@
            || key == "buffer_size"@
            || key == "exploration_noise"@
            || key == "policy_noise"@
            || key == "noise_clip"@
            || key == "learning_starts"@
            || key == "policy_frequency"@,
{
    reveal_strlit("seed");
    reveal_strlit("gamma");
    reveal_strlit("tau");
    reveal_strlit("learning_rate");
    reveal_strlit("batch_size");
    reveal_strlit("buffer_size");
    reveal_strlit("exploration_noise");
    reveal_strlit("policy_noise");
    reveal_strlit("noise_clip");
    reveal_strlit("learning_starts");
    reveal_strlit("policy_frequency");
    assert("seed"@.len() == 4);
    assert("gamma"@.len() == 5);
    assert("tau"@.len() == 3);
    assert("learning_rate"@.len() == 13);
    assert("batch_size"@.len() == 10 && "batch_size"@[0] == 'b');
    assert("buffer_size"@.len() == 11);
    assert("exploration_noise"@.len() == 17);
    assert("policy_noise"@.len() == 12);
    assert("noise_clip"@.len() == 10 && "noise_clip"@[0] == 'n');
    assert("learning_starts"@.len() == 15);
    assert("policy_frequency"@.len() == 16);
}

/// A configuration that is made of arguments for one algorithm has what they set there and the
/// defaults of every other built-in one: arguments for one algorithm never reach another.
pub proof fn law_arguments_reach_their_algorithm_only(
    algorithm: AlgorithmView,
    args: Map<Seq<char>, Seq<char>>,
    readings: Map<Seq<char>, Seq<char>>,
    c: HyperparameterConfig,
)
    requires
        configured(algorithm, args, readings, c),
    ensures
        c.ddpg is Some && c.ppo is Some && c.reinforce is Some && c.td3 is Some,
        algorithm is DDPG ==> c.ddpg->0.set_by(args, readings),
        algorithm is PPO ==> c.ppo->0.set_by(args, readings),
        algorithm is REINFORCE ==> c.reinforce->0.set_by(args, readings),
        algorithm is TD3 ==> c.td3->0.set_by(args, readings),
        algorithm !is DDPG ==> c.ddpg->0.seed == 1 && c.ddpg->0.gamma.text@ == "0.99"@
            && c.ddpg->0.buffer_size == 50000,
        algorithm !is PPO ==> c.ppo->0.seed == 0 && c.ppo->0.clip_ratio.text@ == "0.1"@
            && c.ppo->0.target_kl.text@ == "0.01"@,
        algorithm !is REINFORCE ==> c.reinforce->0.seed == 1 && c.reinforce->0.gamma.text@ == "0.98"@
            && c.reinforce->0.train_vf_iters == 80,
        algorithm !is TD3 ==> c.td3->0.seed == 1 && c.td3->0.tau.text@ == "0.005"@
            && c.td3->0.learning_starts == 25000,
        c.custom is Some <==> algorithm is CUSTOM,
        algorithm matches AlgorithmView::CUSTOM(name) ==> c.custom->0.algorithm_name@ == algorithm
            && c.custom->0.hyperparams@ == args,
{
}

/// An algorithm is known by its name, and by it alone.
pub proof fn law_algorithms_are_known_by_name(name: Seq<char>)
    ensures
        algorithm_named("DDPG"@) is DDPG,
        algorithm_named("PPO"@) is PPO,
        algorithm_named("REINFORCE"@) is REINFORCE,
        algorithm_named("TD3"@) is TD3,
        algorithm_named("CONFIG_INIT"@) is ConfigInit,
        algorithm_named(name) is DDPG ==> name == "DDPG"@,
        algorithm_named(name) is PPO ==> name == "PPO"@,
        algorithm_named(name) is REINFORCE ==> name == "REINFORCE"@,
        algorithm_named(name) is TD3 ==> name == "TD3"@,
        algorithm_named(name) is ConfigInit ==> name == "CONFIG_INIT"@,
        name != "DDPG"@ && name != "PPO"@ && name != "REINFORCE"@ && name != "TD3"@ && name
            != "CONFIG_INIT"@ ==> algorithm_named(name) == AlgorithmView::CUSTOM(name),
        algorithm_name(AlgorithmView::DDPG) == "DDPG"@,
        algorithm_name(AlgorithmView::PPO) == "PPO"@,
        algorithm_name(AlgorithmView::REINFORCE) == "REINFORCE"@,
        algorithm_name(AlgorithmView::TD3) == "TD3"@,
        algorithm_name(AlgorithmView::ConfigInit) == "CONFIG_INIT"@,
        algorithm_name(AlgorithmView::CUSTOM(name)) == name,
{
    law_algorithm_survives_naming(AlgorithmView::DDPG);
    law_algorithm_survives_naming(AlgorithmView::PPO);
    law_algorithm_survives_naming(AlgorithmView::REINFORCE);
    law_algorithm_survives_naming(AlgorithmView::TD3);
    law_algorithm_survives_naming(AlgorithmView::ConfigInit);
}

/// The arguments of an algorithm are written exactly if it is asked for, alone or with all, and the
/// configuration has it. A custom one comes with its name, unless a parameter of its own takes that
/// place, and with all its parameters.
pub proof fn law_arguments_are_of_the_algorithms_asked_for(
    c: HyperparameterConfig,
    asked: Option<AlgorithmView>,
    name: Seq<char>,
    key: Seq<char>,
)
    ensures
        arguments_of(c, asked).contains_key(AlgorithmView::DDPG) <==> c.ddpg is Some && (asked is None
            || asked->0 is DDPG),
        arguments_of(c, asked).contains_key(AlgorithmView::PPO) <==> c.ppo is Some && (asked is None
            || asked->0 is PPO),
        arguments_of(c, asked).contains_key(AlgorithmView::REINFORCE) <==> c.reinforce is Some && (
        asked is None || asked->0 is REINFORCE),
        arguments_of(c, asked).contains_key(AlgorithmView::TD3) <==> c.td3 is Some && (asked is None
            || asked->0 is TD3),
        !arguments_of(c, asked).contains_key(AlgorithmView::ConfigInit),
        asked == Some(AlgorithmView::CUSTOM(name)) ==> (arguments_of(c, asked).contains_key(
            AlgorithmView::CUSTOM(name),
        ) <==> c.custom is Some),
        asked is None && c.custom is Some ==> arguments_of(c, asked).contains_key(
            AlgorithmView::CUSTOM(algorithm_name(c.custom->0.algorithm_name@)),
        ),
        arguments_of(c, asked).contains_key(AlgorithmView::CUSTOM(name)) ==> {
            let written = arguments_of(c, asked)[AlgorithmView::CUSTOM(name)];
            let own = c.custom->0.hyperparams@;
            &&& own.contains_key(key) ==> written.contains_key(key) && written[key] == own[key]
            &&& !own.contains_key("custom_algorithm_name"@) ==> written.contains_key(
                "custom_algorithm_name"@,
            ) && written["custom_algorithm_name"@] == algorithm_name(c.custom->0.algorithm_name@)
            &&& written.contains_key(key) ==> own.contains_key(key) || key
                == "custom_algorithm_name"@
        },
{
}

/// A text says yes in exactly three ways, whatever the case of its letters.
pub proof fn law_yes_is_said_in_three_ways(s: Seq<char>)
    ensures
        says_yes(s) <==> in_lower_case(s) == "true"@ || in_lower_case(s) == "1"@ || in_lower_case(s)
            == "yes"@,
{
}

} // verus!
