use vstd::prelude::*;

use crate::label::label_view;

verus! {

/// The longest interval between the end of one yield and the start of the next that
/// passes unremarked, in nanoseconds (100 ms).
pub const HICCUP_THRESHOLD_NANOS: u128 = 100_000_000u128;

/// How an interval between two yields is to be reported.
#[derive(Clone, Copy, Debug, PartialEq, Eq, Structural)]
pub enum Hiccup {
    /// The interval was short enough: nothing is reported.
    Quiet,
    /// The interval was too long and fell within one labelled portion of work:
    /// it is reported as happening "during" that label.
    During,
    /// The interval was too long and the label changed across it: it is reported as
    /// happening "between" the previous label and the current one.
    Between,
}

/// What is remembered about the most recent completed yield: when it finished (in
/// nanoseconds since a fixed instant), where in the source it was made, and the label of
/// the portion of work that made it.
#[derive(Debug)]
pub struct YieldRecord<L> {
    pub finished_at_nanos: u128,
    pub location: L,
    pub label: Option<String>,
}

/// The time from `then` to `now`, or zero where `now` is not later.
pub open spec fn elapsed_since(now: u128, then: u128) -> nat {
    if now >= then {
        (now - then) as nat
    } else {
        0
    }
}

/// How an interval of `elapsed` nanoseconds between a yield under `last_label` and a
/// yield under `label` is reported.
pub open spec fn hiccup_kind(
    elapsed: nat,
    label: Option<Seq<char>>,
    last_label: Option<Seq<char>>,
) -> Hiccup {
    if elapsed <= HICCUP_THRESHOLD_NANOS {
        Hiccup::Quiet
    } else if label == last_label {
        Hiccup::During
    } else {
        Hiccup::Between
    }
}

/// Whether two optional labels have the same text.
fn same_label(a: &Option<String>, b: &Option<String>) -> (r: bool)
    ensures
        r == (label_view(*a) == label_view(*b)),
{
    match (a, b) {
        (Some(x), Some(y)) => x.eq(y),
        (None, None) => true,
        _ => false,
    }
}

/// Decides how an interval of `elapsed_nanos` between the previous yield (made under
/// `last_label`) and the current one (made under `label`) is reported: quiet up to
/// 100 ms; beyond that, "during" when the label is unchanged and "between" otherwise.
pub fn classify_hiccup(elapsed_nanos: u128, label: &Option<String>, last_label: &Option<String>) -> (h:
    Hiccup)
    ensures
        h == hiccup_kind(elapsed_nanos as nat, label_view(*label), label_view(*last_label)),
        elapsed_nanos <= 100_000_000 ==> h == Hiccup::Quiet,
        elapsed_nanos > 100_000_000 ==> h != Hiccup::Quiet,
        elapsed_nanos > 100_000_000 ==> (h == Hiccup::During <==> label_view(*label) == label_view(
            *last_label,
        )),
{
    if elapsed_nanos <= HICCUP_THRESHOLD_NANOS {
        Hiccup::Quiet
    } else if same_label(label, last_label) {
        Hiccup::During
    } else {
        Hiccup::Between
    }
}

/// The decision made when a yield starts at `now_nanos` under `label`, given the record
/// of the previous yield: the time elapsed since that yield finished, and how the
/// interval is reported.
pub fn check_yield<L>(record: &YieldRecord<L>, now_nanos: u128, label: &Option<String>) -> (r: (
    Hiccup,
    u128,
))
    ensures
        r.1 == elapsed_since(now_nanos, record.finished_at_nanos),
        r.0 == hiccup_kind(r.1 as nat, label_view(*label), label_view(record.label)),
        now_nanos >= record.finished_at_nanos ==> r.1 == now_nanos - record.finished_at_nanos,
        now_nanos < record.finished_at_nanos ==> r.1 == 0,
        now_nanos <= record.finished_at_nanos + 100_000_000 ==> r.0 == Hiccup::Quiet,
        now_nanos > record.finished_at_nanos + 100_000_000 ==> r.0 != Hiccup::Quiet,
        now_nanos > record.finished_at_nanos + 100_000_000 ==> (r.0 == Hiccup::During <==> label_view(
            *label,
        ) == label_view(record.label)),
{
    let elapsed = if now_nanos >= record.finished_at_nanos {
        now_nanos - record.finished_at_nanos
    } else {
        0
    };
    (classify_hiccup(elapsed, label, &record.label), elapsed)
}

/// The record left by a yield that finished at `now_nanos`, made at `location` under
/// `label`; it replaces the record of the previous yield.
pub fn finish_yield<L>(now_nanos: u128, location: L, label: Option<String>) -> (r: YieldRecord<L>)
    ensures
        r.finished_at_nanos == now_nanos,
        r.location == location,
        label_view(r.label) == label_view(label),
{
    YieldRecord { finished_at_nanos: now_nanos, location, label }
}

/// A yield that starts no later than 100 ms after the previous one finished is never
/// reported, whatever the labels.
pub proof fn lemma_quiet_within_threshold(
    finished_at: u128,
    now: u128,
    label: Option<Seq<char>>,
    last_label: Option<Seq<char>>,
)
    requires
        now <= finished_at + HICCUP_THRESHOLD_NANOS,
    ensures
        hiccup_kind(elapsed_since(now, finished_at), label, last_label) == Hiccup::Quiet,
{
}

/// A yield made under the same label as the previous one, after a long interval, is
/// reported as "during" that label; under another label, as "between" the two.
pub proof fn lemma_late_yield_names_labels(
    elapsed: nat,
    label: Option<Seq<char>>,
    last_label: Option<Seq<char>>,
)
    requires
        elapsed > HICCUP_THRESHOLD_NANOS,
    ensures
        label == last_label ==> hiccup_kind(elapsed, label, last_label) == Hiccup::During,
        label != last_label ==> hiccup_kind(elapsed, label, last_label) == Hiccup::Between,
{
}

/// The time measured from the end of one yield to the start of the next is their
/// difference, exactly, however long it is; a clock reading earlier than the end counts as
/// no time at all.
pub proof fn lemma_elapsed_is_difference(now: u128, then: u128)
    ensures
        now >= then ==> elapsed_since(now, then) == now - then,
        now < then ==> elapsed_since(now, then) == 0,
        elapsed_since(now, then) <= now,
{
}

/// A yield that starts more than 100 ms after the previous one finished is always
/// reported, "during" the label when it is unchanged and "between" the labels otherwise;
/// one that starts within 100 ms never is.
pub proof fn lemma_reported_exactly_after_100_ms(
    finished_at: u128,
    now: u128,
    label: Option<Seq<char>>,
    last_label: Option<Seq<char>>,
)
    ensures
        now > finished_at + 100_000_000 ==> hiccup_kind(elapsed_since(now, finished_at), label, last_label)
            == (if label == last_label {
            Hiccup::During
        } else {
            Hiccup::Between
        }),
        now <= finished_at + 100_000_000 ==> hiccup_kind(elapsed_since(now, finished_at), label, last_label)
            == Hiccup::Quiet,
{
}

} // verus!
