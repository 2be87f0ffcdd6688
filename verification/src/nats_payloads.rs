//! The bodies of the messages that go over NATS.
//!
//! Each body is a sequence of plain values in bincode's standard form.

use crate::ids::{uuid_chars, uuid_text};
use crate::registry::IdEntry;
use crate::text::{decimal, decimal_text};
use vstd::prelude::*;

verus! {

/// The values that every request starts with: the transport that sends it, and whom it is about.
pub struct PayloadHead {
    pub transport_namespace: String,
    pub transport_context: String,
    pub namespace: String,
    pub context: String,
    pub id: String,
}

/// The values that a request about an entry starts with.
pub open spec fn head_texts(
    transport_namespace: Seq<char>,
    transport_context: Seq<char>,
    entry: IdEntry,
) -> Seq<Seq<char>> {
    seq![
        transport_namespace,
        transport_context,
        entry.namespace@,
        entry.context@,
        uuid_chars(entry.id),
    ]
}

impl PayloadHead {
    /// The values in their order.
    pub open spec fn texts(self) -> Seq<Seq<char>> {
        seq![
            self.transport_namespace@,
            self.transport_context@,
            self.namespace@,
            self.context@,
            self.id@,
        ]
    }

    /// What a request about an entry starts with.
    pub fn of(transport_namespace: &str, transport_context: &str, entry: &IdEntry) -> (r: Self)
        ensures
            r.texts() == head_texts(transport_namespace@, transport_context@, *entry),
            r.transport_namespace@ == transport_namespace@,
            r.transport_context@ == transport_context@,
            r.namespace@ == entry.namespace@,
            r.context@ == entry.context@,
            r.id@ == uuid_chars(entry.id),
    {
        PayloadHead {
            transport_namespace: transport_namespace.to_owned(),
            transport_context: transport_context.to_owned(),
            namespace: entry.namespace.clone(),
            context: entry.context.clone(),
            id: uuid_text(entry.id),
        }
    }
}

/// The files of a model.
pub struct ModelFilesBundle {
    pub metadata_json_bytes: Vec<u8>,
    pub model_file_name: String,
    pub model_file_bytes: Vec<u8>,
}

impl View for ModelFilesBundle {
    type V = (Seq<u8>, Seq<char>, Seq<u8>);

    open spec fn view(&self) -> (Seq<u8>, Seq<char>, Seq<u8>) {
        (self.metadata_json_bytes@, self.model_file_name@, self.model_file_bytes@)
    }
}

/// A model that a server announces, for whom it is, and its version.
pub struct ModelUpdateBroadcast {
    pub model_bytes: Vec<u8>,
    pub actor_id_bytes: Vec<u8>,
    pub model_version: i64,
}

impl View for ModelUpdateBroadcast {
    type V = (Seq<u8>, Seq<u8>, i64);

    open spec fn view(&self) -> (Seq<u8>, Seq<u8>, i64) {
        (self.model_bytes@, self.actor_id_bytes@, self.model_version)
    }
}

/// The contents of an outcome of encoding.
pub open spec fn outcome(r: Result<Vec<u8>, String>) -> Result<Seq<u8>, Seq<char>> {
    match r {
        Ok(bytes) => Ok(bytes@),
        Err(why) => Err(why@),
    }
}

/// The contents of an outcome of decoding.
pub open spec fn read_outcome<T: View>(r: Result<T, String>) -> Result<T::V, Seq<char>> {
    match r {
        Ok(value) => Ok(value@),
        Err(why) => Err(why@),
    }
}

/// What bincode makes of the five texts that a request starts with.
pub uninterp spec fn encoded_head(head: Seq<Seq<char>>) -> Result<Seq<u8>, Seq<char>>;

/// Calls `bincode::serde::encode_to_vec` in bincode's standard form on the five texts. The result
/// is named.
#[verifier::external_body]
pub(crate) fn encode_head(head: &PayloadHead) -> (r: Result<Vec<u8>, String>)
    ensures
        outcome(r) == encoded_head(head.texts()),
{
    let h = head;
    let parts = (&h.transport_namespace, &h.transport_context, &h.namespace, &h.context, &h.id);
    bincode::serde::encode_to_vec(parts, bincode::config::standard()).map_err(|e| e.to_string())
}

/// What bincode makes of a head and one more text.
pub uninterp spec fn encoded_text(head: Seq<Seq<char>>, text: Seq<char>) -> Result<Seq<u8>, Seq<char>>;

/// Calls `bincode::serde::encode_to_vec` in bincode's standard form on the five texts and one
/// more. The result is named.
#[verifier::external_body]
pub(crate) fn encode_text(head: &PayloadHead, text: &str) -> (r: Result<Vec<u8>, String>)
    ensures
        outcome(r) == encoded_text(head.texts(), text@),
{
    let h = head;
    let parts = (&h.transport_namespace, &h.transport_context, &h.namespace, &h.context, &h.id, text);
    bincode::serde::encode_to_vec(parts, bincode::config::standard()).map_err(|e| e.to_string())
}

/// What bincode makes of a head and some bytes.
pub uninterp spec fn encoded_bytes(head: Seq<Seq<char>>, bytes: Seq<u8>) -> Result<Seq<u8>, Seq<char>>;

/// Calls `bincode::serde::encode_to_vec` in bincode's standard form on the five texts and a list of
/// bytes. The result is named.
#[verifier::external_body]
pub(crate) fn encode_bytes(head: &PayloadHead, bytes: &Vec<u8>) -> (r: Result<Vec<u8>, String>)
    ensures
        outcome(r) == encoded_bytes(head.texts(), bytes@),
{
    let h = head;
    let parts = (&h.transport_namespace, &h.transport_context, &h.namespace, &h.context, &h.id, bytes);
    bincode::serde::encode_to_vec(parts, bincode::config::standard()).map_err(|e| e.to_string())
}

/// What bincode makes of a head, one more text and some bytes.
pub uninterp spec fn encoded_text_bytes(
    head: Seq<Seq<char>>,
    text: Seq<char>,
    bytes: Seq<u8>,
) -> Result<Seq<u8>, Seq<char>>;

/// Calls `bincode::serde::encode_to_vec` in bincode's standard form on the five texts, one more and
/// a list of bytes. The result is named.
#[verifier::external_body]
pub(crate) fn encode_text_bytes(head: &PayloadHead, text: &str, bytes: &Vec<u8>) -> (r: Result<
    Vec<u8>,
    String,
>)
    ensures
        outcome(r) == encoded_text_bytes(head.texts(), text@, bytes@),
{
    let h = head;
    let start = (&h.transport_namespace, &h.transport_context, &h.namespace, &h.context, &h.id);
    let parts = (start, text, bytes);
    bincode::serde::encode_to_vec(parts, bincode::config::standard()).map_err(|e| e.to_string())
}

/// Namespaces, contexts and identifiers as texts.
pub open spec fn triples(entries: Seq<(String, String, String)>) -> Seq<(Seq<char>, Seq<char>, Seq<char>)> {
    entries.map_values(|e: (String, String, String)| (e.0@, e.1@, e.2@))
}

/// What bincode makes of a head and a list of triples.
pub uninterp spec fn encoded_triples(
    head: Seq<Seq<char>>,
    entries: Seq<(Seq<char>, Seq<char>, Seq<char>)>,
) -> Result<Seq<u8>, Seq<char>>;

/// Calls `bincode::serde::encode_to_vec` in bincode's standard form on the five texts and a list of
/// triples of texts. The result is named.
#[verifier::external_body]
pub(crate) fn encode_triples(head: &PayloadHead, entries: &Vec<(String, String, String)>) -> (r:
    Result<Vec<u8>, String>)
    ensures
        outcome(r) == encoded_triples(head.texts(), triples(entries@)),
{
    let h = head;
    let start = (&h.transport_namespace, &h.transport_context, &h.namespace, &h.context, &h.id);
    let parts = (start, entries);
    bincode::serde::encode_to_vec(parts, bincode::config::standard()).map_err(|e| e.to_string())
}

/// Whether bytes are there, hold the name that they announce, and are read as the files of a model.
pub open spec fn holds_bundle(bytes: Seq<u8>, bundle: (Seq<u8>, Seq<char>, Seq<u8>)) -> bool {
    &&& bytes.len() > 0
    &&& name_fits(bytes)
    &&& decoded_bundle(bytes) matches Ok(read)
    &&& read == bundle
}

/// What bincode makes of the files of a model.
pub uninterp spec fn encoded_bundle(bundle: (Seq<u8>, Seq<char>, Seq<u8>)) -> Result<
    Seq<u8>,
    Seq<char>,
>;

/// Calls `bincode::serde::encode_to_vec` in bincode's standard form on a list of bytes, a text and
/// a list of bytes. The result is named. The three lengths alone make it nonempty, the text follows
/// its length, and `bincode::serde::decode_from_slice` in the same form reads the three values back.
#[verifier::external_body]
pub(crate) fn encode_bundle(bundle: &ModelFilesBundle) -> (r: Result<Vec<u8>, String>)
    ensures
        outcome(r) == encoded_bundle(bundle@),
        r matches Ok(bytes) ==> holds_bundle(bytes@, bundle@),
{
    let parts = (&bundle.metadata_json_bytes, &bundle.model_file_name, &bundle.model_file_bytes);
    bincode::serde::encode_to_vec(parts, bincode::config::standard()).map_err(|e| e.to_string())
}

/// What bincode reads as a list of bytes and a number: the number, and how many bytes were read.
/// Where the bytes hold the files of a model, the number is the length of the model file's name.
pub uninterp spec fn announced_name(bytes: Seq<u8>) -> Result<(u64, nat), Seq<char>>;

/// The contents of an outcome of reading how long a name is.
pub open spec fn length_outcome(r: Result<(u64, usize), String>) -> Result<(u64, nat), Seq<char>> {
    match r {
        Ok((length, read)) => Ok((length, read as nat)),
        Err(why) => Err(why@),
    }
}

/// Calls `bincode::serde::decode_from_slice` in bincode's standard form for a list of bytes and a
/// number. The number and how many bytes were read are named; no more are read than there are.
#[verifier::external_body]
pub(crate) fn read_announced_name(bytes: &Vec<u8>) -> (r: Result<(u64, usize), String>)
    ensures
        length_outcome(r) == announced_name(bytes@),
        r matches Ok(read) ==> read.1 <= bytes@.len(),
{
    bincode::serde::decode_from_slice::<(Vec<u8>, u64), _>(bytes, bincode::config::standard()).map(
        |read| (read.0.1, read.1),
    ).map_err(|e| e.to_string())
}

/// Whether the bytes that are left after the length of the name are as many as the name takes.
pub open spec fn name_fits(bytes: Seq<u8>) -> bool {
    &&& announced_name(bytes) matches Ok(announced)
    &&& announced.0 <= bytes.len() - announced.1
}

/// What bincode reads as the files of a model.
pub uninterp spec fn decoded_bundle(bytes: Seq<u8>) -> Result<
    (Seq<u8>, Seq<char>, Seq<u8>),
    Seq<char>,
>;

/// Calls `bincode::serde::decode_from_slice` in bincode's standard form for a list of bytes, a text
/// and a list of bytes. The result is named. As much memory is taken for the text as is announced,
/// so the text has to fit the bytes.
#[verifier::external_body]
pub(crate) fn decode_bundle(bytes: &Vec<u8>) -> (r: Result<ModelFilesBundle, String>)
    requires
        name_fits(bytes@),
    ensures
        read_outcome(r) == decoded_bundle(bytes@),
{
    bincode::serde::decode_from_slice::<(Vec<u8>, String, Vec<u8>), _>(
        bytes,
        bincode::config::standard(),
    ).map(
        |read|
            ModelFilesBundle {
                metadata_json_bytes: read.0.0,
                model_file_name: read.0.1,
                model_file_bytes: read.0.2,
            },
    ).map_err(|e| e.to_string())
}

/// What is wrong with a name that was announced, among so many bytes: its length could not be read,
/// or some of it is missing.
pub open spec fn name_fault(announced: Result<(u64, nat), Seq<char>>, total: nat) -> Option<
    Seq<char>,
> {
    match announced {
        Err(why) => Some(why),
        Ok((length, read)) => if length <= total - read {
            None
        } else {
            Some(
                "UnexpectedEnd { additional: "@ + decimal((length - (total - read)) as nat) + " }"@,
            )
        },
    }
}

/// Checks whether a name that was announced fits the bytes.
pub fn check_announced(announced: Result<(u64, usize), String>, total: usize) -> (r: Result<
    (),
    String,
>)
    requires
        announced matches Ok(a) ==> a.1 <= total,
    ensures
        match name_fault(length_outcome(announced), total as nat) {
            None => r is Ok,
            Some(fault) => r matches Err(m) && m@ == fault,
        },
{
    match announced {
        Err(why) => Err(why),
        Ok((length, read)) => {
            let left: u64 = (total - read) as u64;
            if length <= left {
                Ok(())
            } else {
                let mut m = "UnexpectedEnd { additional: ".to_owned();
                let missing = decimal_text(length - left);
                m.append(missing.as_str());
                m.append(" }");
                Err(m)
            }
        },
    }
}

/// What reading the files of a model gives: a name that does not fit is refused before it is read.
pub open spec fn bundle_read(bytes: Seq<u8>) -> Result<(Seq<u8>, Seq<char>, Seq<u8>), Seq<char>> {
    match name_fault(announced_name(bytes), bytes.len()) {
        None => decoded_bundle(bytes),
        Some(fault) => Err(fault),
    }
}

/// Reads the files of a model.
pub fn read_bundle(bytes: &Vec<u8>) -> (r: Result<ModelFilesBundle, String>)
    ensures
        read_outcome(r) == bundle_read(bytes@),
{
    match check_announced(read_announced_name(bytes), bytes.len()) {
        Err(why) => Err(why),
        Ok(_) => decode_bundle(bytes),
    }
}

/// What bincode reads as a list of bytes.
pub uninterp spec fn decoded_bytes(bytes: Seq<u8>) -> Result<Seq<u8>, Seq<char>>;

/// Calls `bincode::serde::decode_from_slice` in bincode's standard form for a list of bytes. The
/// result is named.
#[verifier::external_body]
pub(crate) fn decode_bytes(bytes: &Vec<u8>) -> (r: Result<Vec<u8>, String>)
    ensures
        read_outcome(r) == decoded_bytes(bytes@),
{
    bincode::serde::decode_from_slice::<Vec<u8>, _>(bytes, bincode::config::standard()).map(
        |read| read.0,
    ).map_err(|e| e.to_string())
}

/// What bincode reads as a model that a server announces.
pub uninterp spec fn decoded_broadcast(bytes: Seq<u8>) -> Result<
    (Seq<u8>, Seq<u8>, i64),
    Seq<char>,
>;

/// Calls `bincode::serde::decode_from_slice` in bincode's standard form for two lists of bytes and
/// a signed number. The result is named.
#[verifier::external_body]
pub(crate) fn decode_broadcast(bytes: &Vec<u8>) -> (r: Result<ModelUpdateBroadcast, String>)
    ensures
        read_outcome(r) == decoded_broadcast(bytes@),
{
    bincode::serde::decode_from_slice::<(Vec<u8>, Vec<u8>, i64), _>(
        bytes,
        bincode::config::standard(),
    ).map(
        |read|
            ModelUpdateBroadcast {
                model_bytes: read.0.0,
                actor_id_bytes: read.0.1,
                model_version: read.0.2,
            },
    ).map_err(|e| e.to_string())
}

/// The text under a field of a JSON object, where the text is JSON and there is such a text.
pub uninterp spec fn json_field(json: Seq<char>, field: Seq<char>) -> Result<
    Option<Seq<char>>,
    Seq<char>,
>;

/// The contents of an outcome of looking for a text.
pub open spec fn found_outcome(r: Result<Option<String>, String>) -> Result<
    Option<Seq<char>>,
    Seq<char>,
> {
    match r {
        Ok(Some(text)) => Ok(Some(text@)),
        Ok(None) => Ok(None),
        Err(why) => Err(why@),
    }
}

/// Calls `serde_json::from_str` for a JSON value, and `get` and `as_str` on the value. The result
/// is named.
#[verifier::external_body]
pub(crate) fn read_json_field(json: &str, field: &str) -> (r: Result<Option<String>, String>)
    ensures
        found_outcome(r) == json_field(json@, field@),
{
    serde_json::from_str::<serde_json::Value>(json).map(
        |value| value.get(field).and_then(|found| found.as_str()).map(|text| text.to_string()),
    ).map_err(|e| e.to_string())
}

/// A request starts with five texts: those of its transport, then those of what it is about. Two
/// requests start alike only if all five agree.
pub proof fn law_requests_start_with_their_own_texts(
    transport_namespace: Seq<char>,
    transport_context: Seq<char>,
    entry: IdEntry,
)
    ensures
        head_texts(transport_namespace, transport_context, entry).len() == 5,
        head_texts(transport_namespace, transport_context, entry)[0] == transport_namespace,
        head_texts(transport_namespace, transport_context, entry)[1] == transport_context,
        head_texts(transport_namespace, transport_context, entry)[2] == entry.namespace@,
        head_texts(transport_namespace, transport_context, entry)[3] == entry.context@,
        head_texts(transport_namespace, transport_context, entry)[4] == uuid_chars(entry.id),
{
}

/// The files of a model are read only where the name that is announced fits the bytes that are left
/// behind its announcement; then they are what the bytes hold. Else they are refused, with how many
/// bytes are missing.
pub proof fn law_only_names_that_fit_are_read(bytes: Seq<u8>)
    ensures
        bundle_read(bytes) is Ok ==> announced_name(bytes) is Ok && announced_name(bytes)->Ok_0.0
            + announced_name(bytes)->Ok_0.1 <= bytes.len() && bundle_read(bytes) == decoded_bundle(
            bytes,
        ),
        announced_name(bytes) matches Err(why) ==> bundle_read(bytes) == Err::<
            (Seq<u8>, Seq<char>, Seq<u8>),
            Seq<char>,
        >(why),
        announced_name(bytes) matches Ok(announced) ==> {
            let missing = announced.0 + announced.1 - bytes.len();
            &&& missing > 0 ==> (bundle_read(bytes) matches Err(why) && why
                == "UnexpectedEnd { additional: "@ + decimal(missing as nat) + " }"@)
            &&& missing <= 0 ==> bundle_read(bytes) == decoded_bundle(bytes)
        },
{
}

} // verus!
