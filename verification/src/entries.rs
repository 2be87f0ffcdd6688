//! Registry entries as they are named to servers.

use crate::errors::TransportError;
use crate::ids::{is_nil, uuid_chars, uuid_text};
use crate::registry::IdEntry;
use crate::text::{join_texts, joined, texts};
use vstd::prelude::*;

verus! {

/// Why an entry cannot be named to a server.
pub open spec fn entry_fault(e: IdEntry) -> Option<Seq<char>> {
    if is_nil(e.id) {
        Some("ID is nil"@)
    } else if e.context@.len() == 0 {
        Some("Context is empty"@)
    } else if e.namespace@.len() == 0 {
        Some("Namespace is empty"@)
    } else {
        None
    }
}

/// Checks that an entry can be named to a server.
pub fn validate_entry(entry: &IdEntry) -> (r: Result<(), TransportError>)
    ensures
        match entry_fault(*entry) {
            Some(fault) => r matches Err(TransportError::InvalidState(m)) && m@ == fault,
            None => r is Ok,
        },
{
    if entry.id == 0 {
        return Err(TransportError::InvalidState("ID is nil".to_owned()));
    } else if entry.context.as_str().is_empty() {
        return Err(TransportError::InvalidState("Context is empty".to_owned()));
    } else if entry.namespace.as_str().is_empty() {
        return Err(TransportError::InvalidState("Namespace is empty".to_owned()));
    }
    Ok(())
}

/// A namespace, a context and an identifier with something between them.
pub open spec fn entry_chars(namespace: Seq<char>, context: Seq<char>, id: u128, between: Seq<char>) -> Seq<
    char,
> {
    namespace + between + context + between + uuid_chars(id)
}

/// Writes a namespace, a context and an identifier with something between them.
pub fn entry_text(namespace: &str, context: &str, id: u128, between: &str) -> (r: String)
    ensures
        r@ == entry_chars(namespace@, context@, id, between@),
{
    let mut r = namespace.to_owned();
    r.append(between);
    r.append(context);
    r.append(between);
    let id_text = uuid_text(id);
    r.append(id_text.as_str());
    r
}

/// The entries of a list, each under its own namespace, with spaces between their parts.
pub open spec fn spaced_entries(entries: Seq<IdEntry>) -> Seq<Seq<char>> {
    entries.map_values(|e: IdEntry| entry_chars(e.namespace@, e.context@, e.id, " "@))
}

/// Writes all entries, with spaces between the parts and between the entries.
pub fn spaced_list(entries: &Vec<IdEntry>) -> (r: String)
    ensures
        r@ == joined(spaced_entries(entries@), " "@),
{
    let mut parts: Vec<String> = Vec::new();
    let mut i: usize = 0;
    while i < entries.len()
        invariant
            i <= entries@.len(),
            texts(parts@) == spaced_entries(entries@).take(i as int),
        decreases entries@.len() - i,
    {
        let e = &entries[i];
        let part = entry_text(e.namespace.as_str(), e.context.as_str(), e.id, " ");
        proof {
            assert(texts(parts@.push(part)) =~= texts(parts@).push(part@));
            assert(spaced_entries(entries@).take(i as int + 1) =~= spaced_entries(entries@).take(
                i as int,
            ).push(part@));
        }
        parts.push(part);
        i = i + 1;
    }
    proof {
        assert(spaced_entries(entries@).take(i as int) =~= spaced_entries(entries@));
    }
    join_texts(&parts, " ")
}

/// The entries of a list, all under one namespace, with colons between their parts.
pub open spec fn colon_entries(namespace: Seq<char>, entries: Seq<IdEntry>) -> Seq<Seq<char>> {
    entries.map_values(|e: IdEntry| entry_chars(namespace, e.context@, e.id, ":"@))
}

/// Writes all entries under one namespace, with colons between the parts and commas between the
/// entries.
pub fn colon_list(namespace: &str, entries: &Vec<IdEntry>) -> (r: String)
    ensures
        r@ == joined(colon_entries(namespace@, entries@), ","@),
{
    let mut parts: Vec<String> = Vec::new();
    let mut i: usize = 0;
    while i < entries.len()
        invariant
            i <= entries@.len(),
            texts(parts@) == colon_entries(namespace@, entries@).take(i as int),
        decreases entries@.len() - i,
    {
        let e = &entries[i];
        let part = entry_text(namespace, e.context.as_str(), e.id, ":");
        proof {
            let all = colon_entries(namespace@, entries@);
            assert(texts(parts@.push(part)) =~= texts(parts@).push(part@));
            assert(all.take(i as int + 1) =~= all.take(i as int).push(part@));
        }
        parts.push(part);
        i = i + 1;
    }
    proof {
        let all = colon_entries(namespace@, entries@);
        assert(all.take(i as int) =~= all);
    }
    join_texts(&parts, ",")
}

/// The entries of a list, each under its own namespace, with colons between their parts.
pub open spec fn own_colon_entries(entries: Seq<IdEntry>) -> Seq<Seq<char>> {
    entries.map_values(|e: IdEntry| entry_chars(e.namespace@, e.context@, e.id, ":"@))
}

/// Writes all entries, with colons between the parts and commas between the entries.
pub fn own_colon_list(entries: &Vec<IdEntry>) -> (r: String)
    ensures
        r@ == joined(own_colon_entries(entries@), ","@),
{
    let mut parts: Vec<String> = Vec::new();
    let mut i: usize = 0;
    while i < entries.len()
        invariant
            i <= entries@.len(),
            texts(parts@) == own_colon_entries(entries@).take(i as int),
        decreases entries@.len() - i,
    {
        let e = &entries[i];
        let part = entry_text(e.namespace.as_str(), e.context.as_str(), e.id, ":");
        proof {
            let all = own_colon_entries(entries@);
            assert(texts(parts@.push(part)) =~= texts(parts@).push(part@));
            assert(all.take(i as int + 1) =~= all.take(i as int).push(part@));
        }
        parts.push(part);
        i = i + 1;
    }
    proof {
        let all = own_colon_entries(entries@);
        assert(all.take(i as int) =~= all);
    }
    join_texts(&parts, ",")
}

/// An entry can be named to a server exactly if its identifier is not nil and neither its context
/// nor its namespace is empty; of several faults the identifier's is told first, then the context's.
pub proof fn law_only_whole_entries_are_named(e: IdEntry)
    ensures
        entry_fault(e) is None <==> e.id != 0 && e.context@.len() > 0 && e.namespace@.len() > 0,
        e.id == 0 ==> entry_fault(e) == Some("ID is nil"@),
        e.id != 0 && e.context@.len() == 0 ==> entry_fault(e) == Some("Context is empty"@),
        e.id != 0 && e.context@.len() > 0 && e.namespace@.len() == 0 ==> entry_fault(e) == Some(
            "Namespace is empty"@,
        ),
{
}

/// Lists of entries name each of them once and in order, by namespace, context and identifier.
pub proof fn law_lists_name_each_entry(namespace: Seq<char>, entries: Seq<IdEntry>, i: int)
    ensures
        spaced_entries(entries).len() == entries.len(),
        colon_entries(namespace, entries).len() == entries.len(),
        own_colon_entries(entries).len() == entries.len(),
        0 <= i < entries.len() ==> spaced_entries(entries)[i] == entries[i].namespace@ + " "@
            + entries[i].context@ + " "@ + uuid_chars(entries[i].id),
        0 <= i < entries.len() ==> colon_entries(namespace, entries)[i] == namespace + ":"@
            + entries[i].context@ + ":"@ + uuid_chars(entries[i].id),
        0 <= i < entries.len() ==> own_colon_entries(entries)[i] == entries[i].namespace@ + ":"@
            + entries[i].context@ + ":"@ + uuid_chars(entries[i].id),
{
}

} // verus!
