//! The process-wide registry of live identifiers.

use crate::ids::uuid_chars;
use crate::text::decimal;
use vstd::prelude::*;

verus! {

/// The registry's error.
#[verifier::external_type_specification]
#[verifier::external_body]
pub struct ExUuidPoolError(active_uuid_registry::UuidPoolError);

/// An identifier with the namespace and the context that it is registered under.
pub struct IdEntry {
    pub namespace: String,
    pub context: String,
    pub id: u128,
}

/// The text of a refusal to change a namespace that has an owner.
pub open spec fn owned_text(namespace: Seq<char>) -> Seq<char> {
    "Unauthorized write access to namespace 'Unauthorized write access to namespace '"@ + namespace
        + "''"@
}

/// Whether this is the text of a refusal to reserve an identifier: so many were tried, and none was
/// unique, or the namespace has an owner.
pub open spec fn refuses_reservation(namespace: Seq<char>, tries: nat, text: Seq<char>) -> bool {
    ||| text == "Failed to generate unique UUID: Failed to generate unique UUID after "@ + decimal(
        tries,
    ) + " attempts"@
    ||| text == owned_text(namespace)
}

/// Calls `active_uuid_registry::interface::reserve_id_with`. An identifier that it hands out
/// carries `base` in its upper 32 bits; the rest is random. Without a retry nothing is reserved. A
/// refusal says how often it was tried, or that the namespace has an owner. Whether a unique
/// identifier is found depends on chance and on the registry: that is left open.
#[verifier::external_body]
pub(crate) fn reserve_id(namespace: &str, context: &str, base: u32, max_retries: usize) -> (r: Result<
    u128,
    active_uuid_registry::UuidPoolError,
>)
    ensures
        max_retries == 0 ==> r is Err,
        r matches Ok(id) ==> id as int / 0x1_0000_0000_0000_0000_0000_0000 == base,
        r matches Err(e) ==> refuses_reservation(
            namespace@,
            max_retries as nat,
            pool_error_chars(e),
        ),
{
    active_uuid_registry::interface::reserve_id_with(namespace, context, base, max_retries).map(
        |id| id.as_u128(),
    )
}

/// Where an identifier is to be reserved, what it carries, and how often that is tried.
pub struct IdSlot {
    pub namespace: String,
    pub context: String,
    pub base: u32,
    pub max_retries: usize,
}

impl IdSlot {
    /// Whether the slot has these values.
    pub open spec fn reads(
        self,
        namespace: Seq<char>,
        context: Seq<char>,
        base: u32,
        max_retries: usize,
    ) -> bool {
        &&& self.namespace@ == namespace
        &&& self.context@ == context
        &&& self.base == base
        &&& self.max_retries == max_retries
    }
}

/// Asks the registry to reserve an identifier.
pub(crate) fn reserve_slot(slot: &IdSlot) -> (r: Result<u128, active_uuid_registry::UuidPoolError>)
    ensures
        slot.max_retries == 0 ==> r is Err,
        r matches Ok(id) ==> id as int / 0x1_0000_0000_0000_0000_0000_0000 == slot.base,
        r matches Err(e) ==> refuses_reservation(
            slot.namespace@,
            slot.max_retries as nat,
            pool_error_chars(e),
        ),
{
    reserve_id(slot.namespace.as_str(), slot.context.as_str(), slot.base, slot.max_retries)
}

/// Whether this is the text of a refusal to remove an identifier: it is not registered, or its
/// namespace has an owner.
pub open spec fn refuses_removal(namespace: Seq<char>, text: Seq<char>) -> bool {
    ||| text == "Failed to remove UUID from pool: Failed to locate/remove UUID in pool"@
    ||| text == owned_text(namespace)
}

/// Calls `active_uuid_registry::interface::remove_id`. It is refused where the identifier is not
/// registered and where the namespace has an owner, and the error says which. Whether either is so
/// depends on the registry, and with it whether the call succeeds: that is left open.
#[verifier::external_body]
pub(crate) fn remove_id(namespace: &str, context: &str, id: u128) -> (r: Result<
    (),
    active_uuid_registry::UuidPoolError,
>)
    ensures
        r matches Err(e) ==> refuses_removal(namespace@, pool_error_chars(e)),
{
    active_uuid_registry::interface::remove_id(
        namespace,
        context,
        active_uuid_registry::registry_uuid::Uuid::from_u128(id),
    )
}

/// Asks the registry to remove an entry.
pub(crate) fn remove_entry(entry: &IdEntry) -> (r: Result<(), active_uuid_registry::UuidPoolError>)
    ensures
        r matches Err(e) ==> refuses_removal(entry.namespace@, pool_error_chars(e)),
{
    remove_id(entry.namespace.as_str(), entry.context.as_str(), entry.id)
}

/// Whether this is the text of a refusal to replace an identifier: it is not registered, the other
/// one is, or the namespace has an owner.
pub open spec fn refuses_replacement(
    namespace: Seq<char>,
    context: Seq<char>,
    old_id: u128,
    new_id: u128,
    text: Seq<char>,
) -> bool {
    let place = " UUID in pool for namespace-context '"@ + namespace + "':'"@ + context + "': "@;
    ||| text == "Failed to find UUID in pool: Failed to find"@ + place + uuid_chars(old_id)
    ||| text == "Failed to replace UUID in pool: Failed to insert new"@ + place + uuid_chars(new_id)
    ||| text == owned_text(namespace)
}

/// Calls `active_uuid_registry::interface::replace_id`. It is refused where the one identifier is
/// not registered, where the other one is, and where the namespace has an owner, and the error says
/// which. Whether any of these is so depends on the registry, and with it whether the call
/// succeeds: that is left open.
#[verifier::external_body]
pub(crate) fn replace_id(namespace: &str, context: &str, old_id: u128, new_id: u128) -> (r: Result<
    (),
    active_uuid_registry::UuidPoolError,
>)
    ensures
        r matches Err(e) ==> refuses_replacement(
            namespace@,
            context@,
            old_id,
            new_id,
            pool_error_chars(e),
        ),
{
    active_uuid_registry::interface::replace_id(
        namespace,
        context,
        active_uuid_registry::registry_uuid::Uuid::from_u128(old_id),
        active_uuid_registry::registry_uuid::Uuid::from_u128(new_id),
    )
}

/// Whether entries all lie under a namespace and a context, and no identifier occurs twice.
pub open spec fn lists_context(
    entries: Seq<IdEntry>,
    namespace: Seq<char>,
    context: Seq<char>,
) -> bool {
    &&& forall|i: int|
        0 <= i < entries.len() ==> (#[trigger] entries[i]).namespace@ == namespace
            && entries[i].context@ == context
    &&& forall|i: int, j: int|
        0 <= i < j < entries.len() ==> (#[trigger] entries[i]).id != (#[trigger] entries[j]).id
}

/// The text of the report that nothing is known under a namespace and a context.
pub open spec fn unknown_context(namespace: Seq<char>, context: Seq<char>) -> Seq<char> {
    "Failed to find UUID in pool: Failed to find UUIDs in pool for namespace-context '"@ + namespace
        + "':'"@ + context + "'"@
}

/// Whether this is an answer to the question for what is registered under a namespace and a
/// context.
pub open spec fn answers_context(
    namespace: Seq<char>,
    context: Seq<char>,
    r: Result<Vec<IdEntry>, active_uuid_registry::UuidPoolError>,
) -> bool {
    match r {
        Ok(entries) => lists_context(entries@, namespace, context),
        Err(e) => pool_error_chars(e) == unknown_context(namespace, context),
    }
}

/// Calls `active_uuid_registry::interface::get_context_entries`. Each entry lies under the
/// namespace and the context that were asked for, and no identifier occurs twice. It is refused
/// where nothing is known under the two. Which identifiers there are, and in what order they come,
/// depends on the registry: that is left open.
#[verifier::external_body]
pub(crate) fn context_entries(namespace: &str, context: &str) -> (r: Result<
    Vec<IdEntry>,
    active_uuid_registry::UuidPoolError,
>)
    ensures
        answers_context(namespace@, context@, r),
{
    active_uuid_registry::interface::get_context_entries(namespace, context).map(
        |found|
            found.into_iter().map(
                |(namespace, context, id)| IdEntry { namespace, context, id: id.as_u128() },
            ).collect(),
    )
}

/// Whether entries all lie under a namespace, and none occurs twice.
pub open spec fn lists_namespace(entries: Seq<IdEntry>, namespace: Seq<char>) -> bool {
    &&& forall|i: int|
        0 <= i < entries.len() ==> (#[trigger] entries[i]).namespace@ == namespace
    &&& forall|i: int, j: int|
        0 <= i < j < entries.len() ==> (#[trigger] entries[i]).context@ != (#[trigger] entries[j]).context@
            || entries[i].id != entries[j].id
}

/// Whether this is an answer to the question for what is registered under a namespace.
pub open spec fn answers_namespace(
    namespace: Seq<char>,
    r: Result<Vec<IdEntry>, active_uuid_registry::UuidPoolError>,
) -> bool {
    match r {
        Ok(entries) => lists_namespace(entries@, namespace),
        Err(e) => pool_error_chars(e) == "Failed to find UUID in pool: Failed to find '"@ + namespace
            + "' namespace in pool"@,
    }
}

/// Calls `active_uuid_registry::interface::get_namespace_entries`. Each entry lies under the
/// namespace that was asked for, and none occurs twice. It is refused where nothing is known of the
/// namespace. Which entries there are, and in what order they come, depends on the registry: that
/// is left open.
#[verifier::external_body]
pub(crate) fn namespace_entries(namespace: &str) -> (r: Result<
    Vec<IdEntry>,
    active_uuid_registry::UuidPoolError,
>)
    ensures
        answers_namespace(namespace@, r),
{
    active_uuid_registry::interface::get_namespace_entries(namespace).map(
        |found|
            found.into_iter().map(
                |(namespace, context, id)| IdEntry { namespace, context, id: id.as_u128() },
            ).collect(),
    )
}

/// Calls `active_uuid_registry::interface::clear_namespace`, which acts on the registry alone and
/// gives no answer: nothing is stated of it.
#[verifier::external_body]
pub(crate) fn clear_namespace(namespace: &str) {
    active_uuid_registry::interface::clear_namespace(namespace)
}

/// Calls `active_uuid_registry::interface::reserve_namespace`, which acts on the registry alone and
/// gives no answer: nothing is stated of it.
#[verifier::external_body]
pub(crate) fn reserve_namespace(namespace: &str) {
    active_uuid_registry::interface::reserve_namespace(namespace)
}

/// Calls `active_uuid_registry::interface::remove_namespace`, which acts on the registry alone and
/// gives no answer: nothing is stated of it.
#[verifier::external_body]
pub(crate) fn remove_namespace(namespace: &str) {
    active_uuid_registry::interface::remove_namespace(namespace)
}

/// The text of an error of the registry.
pub uninterp spec fn pool_error_chars(e: active_uuid_registry::UuidPoolError) -> Seq<char>;

/// Calls `to_string` on the registry's error. The text depends on the error alone.
#[verifier::external_body]
pub(crate) fn pool_error_text(e: &active_uuid_registry::UuidPoolError) -> (r: String)
    ensures
        r@ == pool_error_chars(*e),
{
    e.to_string()
}

/// What is reserved is reserved where the slot says, with the base and as often as it says.
pub proof fn law_slots_say_where(
    slot: IdSlot,
    namespace: Seq<char>,
    context: Seq<char>,
    base: u32,
    max_retries: usize,
)
    ensures
        slot.reads(namespace, context, base, max_retries) <==> slot.namespace@ == namespace
            && slot.context@ == context && slot.base == base && slot.max_retries == max_retries,
{
}

} // verus!
