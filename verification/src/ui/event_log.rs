//! The event log panel's state, its text filter, and how each event row looks.

use vstd::prelude::*;
use vstd::string::*;
use crate::sim::snapshot::{SimEvent, SimEventType};
use crate::text::{decimal, decimal_string};

verus! {

/// Scrollable event log with filter support.
#[derive(Debug, Clone)]
pub struct EventLogPanel {
    pub filter_text: String,
    pub scroll_to_bottom: bool,
}

impl EventLogPanel {
    /// A log with an empty filter that follows new events.
    pub fn new() -> (p: Self)
        ensures
            p.filter_text@ == Seq::<char>::empty(),
            p.scroll_to_bottom,
    {
        EventLogPanel { filter_text: String::new(), scroll_to_bottom: true }
    }

    /// The filter as matching uses it: the filter text in lower case.
    pub fn filter_key(&self) -> (k: String)
        ensures
            k@ == unicode_lowercase(self.filter_text@),
    {
        lowercase(self.filter_text.as_str())
    }
}

impl Default for EventLogPanel {
    fn default() -> (p: Self)
        ensures
            p.filter_text@ == Seq::<char>::empty(),
            p.scroll_to_bottom,
    {
        EventLogPanel::new()
    }
}

// ---------------------------------------------------------------------------
// Filtering
// ---------------------------------------------------------------------------

/// The lower-case form of `s` as `str::to_lowercase` gives it (Unicode case mapping).
pub uninterp spec fn unicode_lowercase(s: Seq<char>) -> Seq<char>;

/// `str::to_lowercase`: the lower-case form of `s`. The contract names the result
/// and says nothing more of Unicode case mapping.
#[verifier::external_body]
fn lowercase(s: &str) -> (r: String)
    ensures
        r@ == unicode_lowercase(s@),
{
    s.to_lowercase()
}

/// Whether `needle` occurs in `hay` as a run of consecutive characters (the empty
/// text occurs everywhere).
pub open spec fn contains_text(hay: Seq<char>, needle: Seq<char>) -> bool {
    exists|i: int| 0 <= i && i + needle.len() <= hay.len() && #[trigger] hay.subrange(i, i + needle.len()) == needle
}

/// Whether the log shows `ev` under the lower-cased filter `filter`: always when the
/// filter is empty, otherwise when the lower-cased detail or the mobile id contains it.
pub open spec fn spec_event_visible(ev: SimEvent, filter: Seq<char>) -> bool {
    filter.len() == 0 || contains_text(unicode_lowercase(ev.detail@), filter) || contains_text(
        decimal(ev.mobile_id as nat),
        filter,
    )
}

/// The log shows an event exactly when the filter is empty or occurs, as a run of
/// consecutive characters anywhere, in the lower-cased detail or in the decimal
/// mobile identifier: a match at any position shows the event, and a shown event
/// under a non-empty filter has such a match.
pub proof fn filter_matches_anywhere(ev: SimEvent, filter: Seq<char>, i: int)
    ensures
        filter.len() == 0 ==> spec_event_visible(ev, filter),
        0 <= i && i + filter.len() <= unicode_lowercase(ev.detail@).len()
            && unicode_lowercase(ev.detail@).subrange(i, i + filter.len()) == filter
            ==> spec_event_visible(ev, filter),
        0 <= i && i + filter.len() <= decimal(ev.mobile_id as nat).len()
            && decimal(ev.mobile_id as nat).subrange(i, i + filter.len()) == filter
            ==> spec_event_visible(ev, filter),
        spec_event_visible(ev, filter) ==> filter.len() == 0
            || (exists|j: int|
                0 <= j && j + filter.len() <= unicode_lowercase(ev.detail@).len()
                    && #[trigger] unicode_lowercase(ev.detail@).subrange(j, j + filter.len()) == filter)
            || (exists|j: int|
                0 <= j && j + filter.len() <= decimal(ev.mobile_id as nat).len()
                    && #[trigger] decimal(ev.mobile_id as nat).subrange(j, j + filter.len()) == filter),
{
    let d = unicode_lowercase(ev.detail@);
    let m = decimal(ev.mobile_id as nat);
    if 0 <= i && i + filter.len() <= d.len() && d.subrange(i, i + filter.len()) == filter {
        assert(contains_text(d, filter));
    }
    if 0 <= i && i + filter.len() <= m.len() && m.subrange(i, i + filter.len()) == filter {
        assert(contains_text(m, filter));
    }
}

fn chars_of(s: &str) -> (v: Vec<char>)
    ensures
        v@ == s@,
{
    let n = s.unicode_len();
    let mut v: Vec<char> = Vec::new();
    let mut i: usize = 0;
    while i < n
        invariant
            n == s@.len(),
            0 <= i <= n,
            v@ == s@.take(i as int),
        decreases n - i,
    {
        let c = s.get_char(i);
        v.push(c);
        i = i + 1;
        assert(v@ =~= s@.take(i as int));
    }
    assert(s@.take(n as int) =~= s@);
    v
}

fn contains_chars(hay: &Vec<char>, needle: &Vec<char>) -> (b: bool)
    ensures
        b == contains_text(hay@, needle@),
{
    let h = hay.len();
    let n = needle.len();
    if n > h {
        return false;
    }
    let mut i: usize = 0;
    while i <= h - n
        invariant
            h == hay@.len(),
            n == needle@.len(),
            n <= h,
            0 <= i <= h - n + 1,
            forall|p: int| 0 <= p < i ==> #[trigger] hay@.subrange(p, p + n) != needle@,
        decreases h - n + 1 - i,
    {
        let mut k: usize = 0;
        let mut same = true;
        while k < n
            invariant
                h == hay@.len(),
                n == needle@.len(),
                i + n <= h,
                0 <= k <= n,
                same <==> forall|q: int| 0 <= q < k ==> hay@[i + q] == needle@[q],
            decreases n - k,
        {
            if hay[i + k] != needle[k] {
                same = false;
            }
            k = k + 1;
        }
        if same {
            assert(hay@.subrange(i as int, i + n) =~= needle@);
            return true;
        }
        assert(hay@.subrange(i as int, i + n) != needle@) by {
            let q = choose|q: int| 0 <= q < n && hay@[i + q] != needle@[q];
            assert(hay@.subrange(i as int, i + n)[q] != needle@[q]);
        }
        i = i + 1;
    }
    false
}

/// Whether the event log shows `ev` under the (already lower-cased) filter `filter`.
pub fn event_visible(ev: &SimEvent, filter: &str) -> (b: bool)
    ensures
        b == spec_event_visible(*ev, filter@),
        filter@.len() == 0 ==> b,
        forall|i: int|
            0 <= i && i + filter@.len() <= unicode_lowercase(ev.detail@).len()
                && #[trigger] unicode_lowercase(ev.detail@).subrange(i, i + filter@.len()) == filter@ ==> b,
        forall|i: int|
            0 <= i && i + filter@.len() <= decimal(ev.mobile_id as nat).len()
                && #[trigger] decimal(ev.mobile_id as nat).subrange(i, i + filter@.len()) == filter@ ==> b,
        b ==> filter@.len() == 0
            || (exists|i: int|
                0 <= i && i + filter@.len() <= unicode_lowercase(ev.detail@).len()
                    && #[trigger] unicode_lowercase(ev.detail@).subrange(i, i + filter@.len()) == filter@)
            || (exists|i: int|
                0 <= i && i + filter@.len() <= decimal(ev.mobile_id as nat).len()
                    && #[trigger] decimal(ev.mobile_id as nat).subrange(i, i + filter@.len()) == filter@),
{
    if filter.unicode_len() == 0 {
        return true;
    }
    let needle = chars_of(filter);
    let detail = lowercase(ev.detail.as_str());
    let detail_chars = chars_of(detail.as_str());
    if contains_chars(&detail_chars, &needle) {
        return true;
    }
    let id = decimal_string(ev.mobile_id as u64);
    let id_chars = chars_of(id.as_str());
    contains_chars(&id_chars, &needle)
}

// ---------------------------------------------------------------------------
// Row appearance
// ---------------------------------------------------------------------------

/// The RGB colour of a row of the given event type.
pub open spec fn event_rgb(t: SimEventType) -> Seq<u8> {
    match t {
        SimEventType::Arrival => seq![80u8, 140u8, 220u8],
        SimEventType::Departure => seq![140u8, 140u8, 140u8],
        SimEventType::HandoffSuccess => seq![60u8, 180u8, 60u8],
        SimEventType::HandoffFailure => seq![220u8, 80u8, 80u8],
        SimEventType::SlaViolation => seq![220u8, 130u8, 0u8],
        SimEventType::TowerFailure => seq![160u8, 40u8, 40u8],
        SimEventType::TowerRestore => seq![60u8, 160u8, 100u8],
        SimEventType::MobileSurge => seq![120u8, 80u8, 200u8],
    }
}

/// The icon of a row of the given event type.
pub open spec fn event_icon(t: SimEventType) -> Seq<char> {
    match t {
        SimEventType::Arrival => "→"@,
        SimEventType::Departure => "←"@,
        SimEventType::HandoffSuccess => "⇄"@,
        SimEventType::HandoffFailure => "✗"@,
        SimEventType::SlaViolation => "⚠"@,
        SimEventType::TowerFailure => "⚡"@,
        SimEventType::TowerRestore => "✓"@,
        SimEventType::MobileSurge => "↑"@,
    }
}

/// Colour and icon per event type.
pub fn event_style(etype: &SimEventType) -> (r: ([u8; 3], &'static str))
    ensures
        r.0@ == event_rgb(*etype),
        r.1@ == event_icon(*etype),
{
    let r: ([u8; 3], &'static str) = match etype {
        SimEventType::Arrival => ([80, 140, 220], "→"),
        SimEventType::Departure => ([140, 140, 140], "←"),
        SimEventType::HandoffSuccess => ([60, 180, 60], "⇄"),
        SimEventType::HandoffFailure => ([220, 80, 80], "✗"),
        SimEventType::SlaViolation => ([220, 130, 0], "⚠"),
        SimEventType::TowerFailure => ([160, 40, 40], "⚡"),
        SimEventType::TowerRestore => ([60, 160, 100], "✓"),
        SimEventType::MobileSurge => ([120, 80, 200], "↑"),
    };
    assert(r.0@ =~= event_rgb(*etype));
    r
}

/// Handoff rows can be clicked to inspect the mobile involved.
pub fn event_is_clickable(etype: &SimEventType) -> (b: bool)
    ensures
        b <==> (*etype == SimEventType::HandoffSuccess || *etype == SimEventType::HandoffFailure),
{
    match etype {
        SimEventType::HandoffSuccess | SimEventType::HandoffFailure => true,
        _ => false,
    }
}

/// `s` right-aligned in a field of `width` characters (padded with spaces on the left).
pub open spec fn pad_left(s: Seq<char>, width: nat) -> Seq<char> {
    if s.len() < width {
        Seq::new((width - s.len()) as nat, |i: int| ' ') + s
    } else {
        s
    }
}

/// The text of an event row: `[tick] icon M#id — detail`, the tick right-aligned in six places.
pub open spec fn event_row_text(ev: SimEvent) -> Seq<char> {
    "["@ + pad_left(decimal(ev.tick as nat), 6) + "] "@ + event_icon(ev.event_type) + " M#"@ + decimal(
        ev.mobile_id as nat,
    ) + " — "@ + ev.detail@
}

/// The text shown for one event in the log.
pub fn event_row_label(ev: &SimEvent) -> (s: String)
    ensures
        s@ == event_row_text(*ev),
{
    let (_, icon) = event_style(&ev.event_type);
    let tick = decimal_string(ev.tick);
    let len = tick.as_str().unicode_len();
    let mut s = String::from_str("[");
    let ghost start = s@;
    let mut k: usize = len;
    while k < 6
        invariant
            len <= k <= 6 || (len > 6 && k == len),
            len == tick@.len(),
            s@ == "["@ + Seq::new((k - len) as nat, |i: int| ' '),
        decreases 6 - k,
    {
        proof { reveal_strlit(" "); }
        s.append(" ");
        k = k + 1;
        assert(s@ =~= "["@ + Seq::new((k - len) as nat, |i: int| ' '));
    }
    s.append(tick.as_str());
    assert(s@ =~= "["@ + pad_left(tick@, 6));
    s.append("] ");
    s.append(icon);
    s.append(" M#");
    let id = decimal_string(ev.mobile_id as u64);
    s.append(id.as_str());
    s.append(" — ");
    s.append(ev.detail.as_str());
    s
}

} // verus!
