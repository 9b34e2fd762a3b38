//! The fuzzy matcher behind the path pane. The matching itself is the work of the
//! `nucleo` crate, which ranks the registered entries on worker threads of its own;
//! nothing in this file is proved. Each contract states what the matcher's source
//! shows of the call, over five names: the entries that were registered, the
//! entries of the snapshot that the matcher last committed, the filter from which
//! its pattern was parsed, whether the matcher is at rest, and the ranked matches
//! that its workers arrive at.
//!
//! The contracts hold of a matcher that is used as this library uses it: entries
//! are pushed from one thread, and a pattern is always parsed anew, never as an
//! extension of the pattern before.

use crate::text::decimal_text;
use nucleo::pattern::{CaseMatching, Normalization};
use nucleo::{Config, Nucleo, Utf32String};
use std::sync::Arc;
use vstd::prelude::*;

verus! {

/// One entry of the search index as a mathematical value: the index of a group, the
/// start address of its first member, and its label.
pub type Entry = (usize, u64, Seq<char>);

/// The number of entries that a matcher takes: its store counts no more than
/// `u32::MAX - 32` entries, and an entry beyond that count would never reach the
/// workers.
pub const SEARCH_CAPACITY: usize = 0xFFFF_FFDF;

/// `nucleo::Nucleo`, the matcher with its workers. Nothing inside it is visible here.
#[verifier::external_type_specification]
#[verifier::external_body]
#[verifier::reject_recursive_types(T)]
pub struct ExNucleo<T: Sync + Send + 'static>(Nucleo<T>);

/// The entries that were registered with a matcher, in the order of registration.
pub uninterp spec fn registered(matcher: Nucleo<(usize, u64, String)>) -> Seq<Entry>;

/// The entries of the snapshot that a matcher last committed, in ranked order.
pub uninterp spec fn snapshot(matcher: Nucleo<(usize, u64, String)>) -> Seq<Entry>;

/// The filter from which a matcher's pattern for the labels was last parsed; the
/// empty text for a matcher that was never given one. This is a record of what was
/// handed to the matcher: different filters may parse to one pattern, so the filter
/// cannot be read off the matcher.
pub uninterp spec fn pattern(matcher: Nucleo<(usize, u64, String)>) -> Seq<char>;

/// Whether a matcher is at rest: its workers are idle, they have processed every
/// registered entry under the pattern in force, and their result is committed. A
/// matcher comes to rest only in a tick; a new entry or a new pattern ends the rest.
pub uninterp spec fn at_rest(matcher: Nucleo<(usize, u64, String)>) -> bool;

/// What the matcher's workers arrive at for the given entries, registered in that
/// order, and the given filter: the entries that match the filter, best match first,
/// entries of one score and one length in the order of their registration. Which
/// entries match, and how well, is the matcher's own rule; the result depends on
/// the entries and the filter alone.
pub uninterp spec fn matched(entries: Seq<Entry>, filter: Seq<char>) -> Seq<Entry>;

/// Every one of the entries is among those registered.
pub open spec fn within(entries: Seq<Entry>, registered: Seq<Entry>) -> bool {
    forall|k: int| 0 <= k < entries.len() ==> registered.contains(#[trigger] entries[k])
}

/// The entries are a choice among those registered: each of them is registered, and
/// where no two registered entries are equal, none occurs twice.
pub open spec fn chosen_from(entries: Seq<Entry>, registered: Seq<Entry>) -> bool {
    &&& within(entries, registered)
    &&& (registered.no_duplicates() ==> entries.no_duplicates())
}

/// A character with the capital letters `A` to `Z` turned into small ones.
pub open spec fn lower_ascii_char(c: char) -> char {
    if 'A' <= c <= 'Z' {
        ((c as u8) + 32) as u8 as char
    } else {
        c
    }
}

/// A text with the capital letters `A` to `Z` turned into small ones.
pub open spec fn lower_ascii(text: Seq<char>) -> Seq<char> {
    text.map_values(|c: char| lower_ascii_char(c))
}

/// What a snapshot holds once the matcher has caught up with the entries and the
/// filter: the ranked matches for them, which are a choice among the entries, do
/// not depend on the case of the letters `A` to `Z` in the filter, and for the empty
/// filter are all entries in the order of their registration.
pub open spec fn caught_up(snapshot: Seq<Entry>, entries: Seq<Entry>, filter: Seq<char>) -> bool {
    &&& snapshot == matched(entries, filter)
    &&& snapshot == matched(entries, lower_ascii(filter))
    &&& chosen_from(snapshot, entries)
    &&& (filter.len() == 0 ==> snapshot == entries)
}

/// `Nucleo::new` with the default configuration, a notifier that does nothing, one
/// worker per hardware thread and two columns to match on. The call fails only
/// where the system refuses the threads. The new matcher holds no entry, its
/// snapshot is empty, its pattern has no part, as that of the empty filter, and it
/// is not at rest: its workers have not run yet.
#[verifier::external_body]
pub(crate) fn matcher_new() -> (matcher: Nucleo<(usize, u64, String)>)
    ensures
        registered(matcher) == Seq::<Entry>::empty(),
        snapshot(matcher) == Seq::<Entry>::empty(),
        pattern(matcher) == Seq::<char>::empty(),
        !at_rest(matcher),
{
    Nucleo::new(Config::DEFAULT, Arc::new(|| {}), None, 2)
}

/// `Injector::push` on the matcher's own injector: the entry is appended behind
/// those registered before. Its first column to match on is the address in decimal,
/// its second the label. Both go into the variant of the matcher's text that is
/// meant for ASCII, whatever the label holds: a label beyond ASCII is matched byte
/// by byte, and a filter beyond ASCII never matches it. The snapshot and the
/// pattern stay as they are, and the matcher is not at rest, since the workers have
/// not seen the entry. The store counts no more than `u32::MAX - 32` entries, so
/// the matcher takes an entry only while it holds fewer.
#[verifier::external_body]
pub(crate) fn matcher_push(
    matcher: &mut Nucleo<(usize, u64, String)>,
    group: usize,
    address: u64,
    label: String,
)
    requires
        registered(*old(matcher)).len() < SEARCH_CAPACITY,
    ensures
        registered(*final(matcher)) == registered(*old(matcher)).push((group, address, label@)),
        snapshot(*final(matcher)) == snapshot(*old(matcher)),
        pattern(*final(matcher)) == pattern(*old(matcher)),
        !at_rest(*final(matcher)),
{
    matcher.injector().push((group, address, label), |entry, columns| {
        columns[0] = Utf32String::Ascii(decimal_text(entry.1).into());
        columns[1] = Utf32String::Ascii(entry.2.as_str().into());
    });
}

/// `MultiPattern::reparse` on the matcher's pattern, for the label column, without
/// regard to case, without normalization and not as an extension of the pattern
/// before: the pattern is now the one parsed from the filter. Neither the entries
/// nor the snapshot change: the workers learn of the new pattern at the next tick,
/// and until they have run with it the matcher is not at rest.
#[verifier::external_body]
pub(crate) fn matcher_reparse(matcher: &mut Nucleo<(usize, u64, String)>, filter: &str)
    ensures
        registered(*final(matcher)) == registered(*old(matcher)),
        snapshot(*final(matcher)) == snapshot(*old(matcher)),
        pattern(*final(matcher)) == filter@,
        !at_rest(*final(matcher)),
{
    matcher.pattern.reparse(1, filter, CaseMatching::Ignore, Normalization::Never, false);
}

/// `Nucleo::tick`: waits up to `timeout` milliseconds for the workers and, where
/// they are done, commits their result as the new snapshot. It returns the field
/// `running` of the status: whether the workers are still at work. The registered
/// entries and the pattern stay.
///
/// While the workers run, nothing is promised of the snapshot, since it depends on
/// how far they came. The status says that they do not run only where the call has
/// taken the workers' lock and found every entry processed; their last run, made
/// with the pattern now in force, is committed by then. So the matcher is at rest
/// exactly where the call returns `false`, and the snapshot has then caught up: it
/// holds what the workers arrive at for the entries and the filter, each entry read
/// from the store at an index of its own. The filter is parsed without regard to
/// case, and for a pattern without parts the workers take every entry in the order
/// of registration, without ranking.
///
/// A tick of a matcher at rest finds the lock free, nothing to commit and nothing
/// to process: it returns `false` and leaves the snapshot as it is.
#[verifier::external_body]
pub(crate) fn matcher_tick(matcher: &mut Nucleo<(usize, u64, String)>, timeout: u64) -> (running:
    bool)
    ensures
        registered(*final(matcher)) == registered(*old(matcher)),
        pattern(*final(matcher)) == pattern(*old(matcher)),
        at_rest(*final(matcher)) == !running,
        !running ==> snapshot(*final(matcher)) == matched(
            registered(*final(matcher)),
            pattern(*final(matcher)),
        ),
        !running ==> caught_up(
            snapshot(*final(matcher)),
            registered(*final(matcher)),
            pattern(*final(matcher)),
        ),
        at_rest(*old(matcher)) ==> !running && snapshot(*final(matcher)) == snapshot(*old(matcher)),
{
    matcher.tick(timeout).running
}

/// `Snapshot::matched_items` over all matches of `Nucleo::snapshot`: the entries of
/// the committed snapshot in ranked order, each copied out. A snapshot holds
/// references into the matcher's own store of entries, each match at an index of
/// its own: every entry of the snapshot is one that was registered, and none is
/// listed twice.
#[verifier::external_body]
pub(crate) fn matcher_matches(matcher: &Nucleo<(usize, u64, String)>) -> (matches: Vec<
    (usize, u64, String),
>)
    ensures
        matches.deep_view() == snapshot(*matcher),
        chosen_from(matches.deep_view(), registered(*matcher)),
{
    matcher.snapshot().matched_items(..).map(
        |item| (item.data.0, item.data.1, item.data.2.clone()),
    ).collect()
}

} // verus!
