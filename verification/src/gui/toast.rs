//! The activity toast: what it shows and how its window is laid out.
use vstd::prelude::*;

verus! {

/// `std::time::Instant`, carried through as an opaque value.
#[verifier::external_type_specification]
#[verifier::external_body]
pub struct ExInstant(std::time::Instant);

/// Calls `std::time::Instant::now`. The moment it returns depends on the clock,
/// so nothing is stated of the result.
#[verifier::external_body]
fn now() -> (instant: std::time::Instant) {
    std::time::Instant::now()
}

/// The state a backup or restore toast reports.
#[derive(Debug, Clone)]
pub enum ToastKind {
    Progress { title: String, subtitle: String, percent: u8 },
    Done { title: String, subtitle: String },
    NoChanges { title: String, subtitle: String },
    Error { title: String, subtitle: String },
}

impl ToastKind {
    /// The first line of text of the toast.
    pub open spec fn title_view(&self) -> Seq<char> {
        match self {
            ToastKind::Progress { title, .. } => title@,
            ToastKind::Done { title, .. } => title@,
            ToastKind::NoChanges { title, .. } => title@,
            ToastKind::Error { title, .. } => title@,
        }
    }

    /// The second line of text of the toast.
    pub open spec fn subtitle_view(&self) -> Seq<char> {
        match self {
            ToastKind::Progress { subtitle, .. } => subtitle@,
            ToastKind::Done { subtitle, .. } => subtitle@,
            ToastKind::NoChanges { subtitle, .. } => subtitle@,
            ToastKind::Error { subtitle, .. } => subtitle@,
        }
    }

    /// The number of characters of the longer of the two lines.
    pub open spec fn spec_width_hint(&self) -> nat {
        let t = self.title_view().len();
        let s = self.subtitle_view().len();
        if t >= s { t } else { s }
    }

    /// A rough measure of how wide the window should be, based on the longer line of text.
    pub fn width_hint(&self) -> (hint: usize)
        ensures
            hint == self.spec_width_hint(),
            hint >= self.title_view().len(),
            hint >= self.subtitle_view().len(),
            hint == self.title_view().len() || hint == self.subtitle_view().len(),
    {
        let (title, subtitle) = match self {
            ToastKind::Progress { title, subtitle, .. } => (title, subtitle),
            ToastKind::Done { title, subtitle } => (title, subtitle),
            ToastKind::NoChanges { title, subtitle } => (title, subtitle),
            ToastKind::Error { title, subtitle } => (title, subtitle),
        };
        let title_chars = title.as_str().unicode_len();
        let subtitle_chars = subtitle.as_str().unicode_len();
        if title_chars >= subtitle_chars {
            title_chars
        } else {
            subtitle_chars
        }
    }
}

/// A toast together with the moment it was opened, from which its animations run.
pub struct Toast {
    pub kind: ToastKind,
    pub created: std::time::Instant,
}

impl Toast {
    /// Opens a toast of the given kind, stamped with the current time.
    pub fn new(kind: ToastKind) -> (toast: Self)
        ensures
            toast.kind == kind,
    {
        Self::opened_at(kind, now())
    }

    /// A toast of the given kind opened at the moment `created`.
    pub fn opened_at(kind: ToastKind, created: std::time::Instant) -> (toast: Self)
        ensures
            toast.kind == kind,
            toast.created == created,
    {
        Self { kind, created }
    }
}

/// Timing of an eased animation: it stays at its start for `delay_ms` after the
/// toast opened, then eases out over `duration_ms`.
#[derive(Debug, Clone, Copy, PartialEq, Eq, Structural)]
pub struct Easing {
    pub delay_ms: u64,
    pub duration_ms: u64,
}

/// The round badge at the left of the toast.
#[derive(Debug, Clone, Copy, PartialEq, Eq, Structural)]
pub enum Chip {
    /// A turning arc around the application icon, on a transparent badge.
    Spinner,
    /// The application icon on the badge of a finished run.
    Done,
    /// The application icon on the badge of a run that found nothing to do.
    NoChanges,
    /// An exclamation mark on the error badge.
    Error,
}

/// What stands at the right end of the toast.
#[derive(Debug, Clone, Copy, PartialEq, Eq, Structural)]
pub enum Accessory {
    /// The percentage reached, as a number with a percent sign.
    Percent(u8),
    /// A check mark in a circle that pops in with the given timing.
    CheckCircle(Easing),
    /// An exclamation mark on a small badge.
    ErrorBadge,
}

/// The bar under the two lines of text.
#[derive(Debug, Clone, Copy, PartialEq, Eq, Structural)]
pub enum Bar {
    /// Filled to `percent` of its length, growing in with the given timing.
    Progress { percent: u8, fill: Easing },
    /// Filled to its whole length with the given timing.
    Complete { fill: Easing },
}

/// Everything the toast shows, decided from its kind; the renderer draws it.
pub struct ToastLayout {
    pub chip: Chip,
    pub title: String,
    pub subtitle: String,
    pub accessory: Option<Accessory>,
    pub bar: Option<Bar>,
    /// A line along the bottom edge that shrinks away with the given timing
    /// before the toast dismisses itself.
    pub timer: Option<Easing>,
}

/// Timing of the bar of a toast in progress.
pub open spec fn progress_fill() -> Easing {
    Easing { delay_ms: 400, duration_ms: 1200 }
}

/// Timing of the check mark of a finished toast.
pub open spec fn done_pop() -> Easing {
    Easing { delay_ms: 550, duration_ms: 350 }
}

/// Timing of the bar of a finished toast.
pub open spec fn done_fill() -> Easing {
    Easing { delay_ms: 500, duration_ms: 1000 }
}

/// Timing of the dismissal line of a toast that found nothing to do.
pub open spec fn no_changes_timer() -> Easing {
    Easing { delay_ms: 500, duration_ms: 2500 }
}

/// What a toast of the given kind shows, apart from its two lines of text.
pub open spec fn spec_layout_parts(kind: ToastKind) -> (Chip, Option<Accessory>, Option<Bar>, Option<Easing>) {
    match kind {
        ToastKind::Progress { percent, .. } => (
            Chip::Spinner,
            Some(Accessory::Percent(percent)),
            Some(Bar::Progress { percent, fill: progress_fill() }),
            None,
        ),
        ToastKind::Done { .. } => (
            Chip::Done,
            Some(Accessory::CheckCircle(done_pop())),
            Some(Bar::Complete { fill: done_fill() }),
            None,
        ),
        ToastKind::NoChanges { .. } => (Chip::NoChanges, None, None, Some(no_changes_timer())),
        ToastKind::Error { .. } => (Chip::Error, Some(Accessory::ErrorBadge), None, None),
    }
}

/// Decides what the toast shows for its kind.
pub fn layout(kind: &ToastKind) -> (layout: ToastLayout)
    ensures
        forall|p: u8|
            (*kind matches ToastKind::Progress { percent, .. } && percent == p) ==> {
                &&& layout.accessory == Some(Accessory::Percent(p))
                &&& layout.bar matches Some(Bar::Progress { percent: q, .. }) && q == p
            },
        layout.title@ == kind.title_view(),
        layout.subtitle@ == kind.subtitle_view(),
        (layout.chip, layout.accessory, layout.bar, layout.timer) == spec_layout_parts(*kind),
{
    match kind {
        ToastKind::Progress { title, subtitle, percent } => ToastLayout {
            chip: Chip::Spinner,
            title: title.clone(),
            subtitle: subtitle.clone(),
            accessory: Some(Accessory::Percent(*percent)),
            bar: Some(
                Bar::Progress { percent: *percent, fill: Easing { delay_ms: 400, duration_ms: 1200 } },
            ),
            timer: None,
        },
        ToastKind::Done { title, subtitle } => ToastLayout {
            chip: Chip::Done,
            title: title.clone(),
            subtitle: subtitle.clone(),
            accessory: Some(Accessory::CheckCircle(Easing { delay_ms: 550, duration_ms: 350 })),
            bar: Some(Bar::Complete { fill: Easing { delay_ms: 500, duration_ms: 1000 } }),
            timer: None,
        },
        ToastKind::NoChanges { title, subtitle } => ToastLayout {
            chip: Chip::NoChanges,
            title: title.clone(),
            subtitle: subtitle.clone(),
            accessory: None,
            bar: None,
            timer: Some(Easing { delay_ms: 500, duration_ms: 2500 }),
        },
        ToastKind::Error { title, subtitle } => ToastLayout {
            chip: Chip::Error,
            title: title.clone(),
            subtitle: subtitle.clone(),
            accessory: Some(Accessory::ErrorBadge),
            bar: None,
            timer: None,
        },
    }
}

/// The number of parts into which a portion bar divides its track.
pub const PORTION_TRACK: u16 = 1000;

/// The relative widths of the two parts of a portion bar; a part of width
/// zero is left out, since a zero weight would still take up room.
#[derive(Debug, Clone, Copy, PartialEq, Eq, Structural)]
pub struct PortionWeights {
    pub filled: Option<u16>,
    pub empty: Option<u16>,
}

/// The weight of a part, or none where it would be empty.
pub open spec fn nonzero_weight(weight: int) -> Option<u16> {
    if weight > 0 { Some(weight as u16) } else { None }
}

/// The weights of a track of which `filled` of the parts are filled; the rest
/// is empty, and nothing is empty where `filled` covers the whole track.
pub open spec fn spec_portion_weights(filled: u16) -> PortionWeights {
    let empty: int = if filled <= PORTION_TRACK { PORTION_TRACK - filled } else { 0 };
    PortionWeights { filled: nonzero_weight(filled as int), empty: nonzero_weight(empty) }
}

/// The width a weight stands for, zero for a part that is left out.
pub open spec fn weight_width(weight: Option<u16>) -> int {
    match weight {
        Some(w) => w as int,
        None => 0,
    }
}

/// Splits a portion bar into its filled and empty parts, `filled` of the
/// track's parts being filled.
pub fn portion_weights(filled: u16) -> (weights: PortionWeights)
    ensures
        filled > 0 ==> weights.filled == Some(filled),
        filled == 0 ==> weights.filled is None,
        filled < PORTION_TRACK ==> weights.empty == Some((PORTION_TRACK - filled) as u16),
        filled >= PORTION_TRACK ==> weights.empty is None,
        weights == spec_portion_weights(filled),
{
    let empty = PORTION_TRACK.saturating_sub(filled);
    PortionWeights {
        filled: if filled > 0 { Some(filled) } else { None },
        empty: if empty > 0 { Some(empty) } else { None },
    }
}

/// A portion bar of which no more than the whole track is filled is split
/// into parts that together cover exactly the track, and at least one part
/// is drawn.
pub proof fn lemma_portion_weights_cover_track(filled: u16)
    requires
        filled <= PORTION_TRACK,
    ensures
        weight_width(spec_portion_weights(filled).filled) + weight_width(
            spec_portion_weights(filled).empty,
        ) == PORTION_TRACK,
        spec_portion_weights(filled).filled is Some || spec_portion_weights(filled).empty is Some,
{
}

/// Laws of the toast's decisions.
///
/// The width hint is the character count of the longer of the toast's two
/// lines: at least as long as each line, and equal to one of them.
pub proof fn lemma_width_hint_is_longer_line(kind: ToastKind)
    ensures
        ({
            let (title_len, subtitle_len) = match kind {
                ToastKind::Progress { title, subtitle, .. } => (title@.len(), subtitle@.len()),
                ToastKind::Done { title, subtitle } => (title@.len(), subtitle@.len()),
                ToastKind::NoChanges { title, subtitle } => (title@.len(), subtitle@.len()),
                ToastKind::Error { title, subtitle } => (title@.len(), subtitle@.len()),
            };
            &&& kind.spec_width_hint() >= title_len
            &&& kind.spec_width_hint() >= subtitle_len
            &&& (kind.spec_width_hint() == title_len || kind.spec_width_hint() == subtitle_len)
        }),
{
}

/// A toast in progress shows its own percentage: the label reads exactly the
/// kind's percent, and the bar fills to exactly that percent.
pub proof fn lemma_progress_shows_its_percent(title: String, subtitle: String, percent: u8)
    ensures
        ({
            let (_, accessory, bar, _) = spec_layout_parts(
                ToastKind::Progress { title, subtitle, percent },
            );
            &&& accessory == Some(Accessory::Percent(percent))
            &&& bar matches Some(Bar::Progress { percent: shown, .. }) && shown == percent
        }),
{
}

/// The filled part of a portion bar weighs exactly the number of filled
/// parts, and the empty part exactly what is left of the track.
pub proof fn lemma_portion_weights_exact(filled: u16)
    ensures
        filled > 0 ==> spec_portion_weights(filled).filled == Some(filled),
        filled == 0 ==> spec_portion_weights(filled).filled is None,
        filled < 1000 ==> weight_width(spec_portion_weights(filled).empty) == 1000 - filled,
        filled >= 1000 ==> spec_portion_weights(filled).empty is None,
{
}

} // verus!
