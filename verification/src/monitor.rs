//! Monitor descriptors and the logic that selects among them.
//!
//! The platform query that enumerates the outputs is left to the caller; it
//! hands the enumerated descriptors in as plain values. This module holds the
//! rules: the primary fallback, the primary lookup, and the largest-overlap
//! match between a window rectangle and the monitors.

use vstd::prelude::*;
use crate::dpi::{PhysicalPosition, PhysicalSize};
use crate::util::{spec_overlapping_area, AaRect};

verus! {

/// A video mode a monitor can be switched to.
#[derive(Debug, Clone, Copy, PartialEq, Eq, Structural)]
pub struct VideoMode {
    pub width: u32,
    pub height: u32,
    pub bit_depth: u16,
    pub refresh_rate: u16,
}

/// Identifier and descriptor for one monitor.
///
/// The DPI scale factor is carried in thousandths, so a factor of 1.5 is
/// stored as 1500.
#[derive(Debug)]
pub struct MonitorHandle {
    /// The identifier the platform gave this output.
    pub id: u32,
    /// The human-readable name of the monitor.
    pub name: String,
    /// Width and height in physical pixels.
    pub dimensions: (u32, u32),
    /// Top-left corner, relative to the whole screen area.
    pub position: (i32, i32),
    /// Whether this is the primary monitor.
    pub primary: bool,
    /// DPI scale factor, in thousandths.
    pub hidpi_factor_millis: u32,
    /// The screen rectangle this monitor covers.
    pub rect: AaRect,
    /// The video modes this monitor supports.
    pub video_modes: Vec<VideoMode>,
}

/// The mathematical value of a [`MonitorHandle`].
#[verifier::ext_equal]
pub struct MonitorHandleView {
    pub id: u32,
    pub name: Seq<char>,
    pub dimensions: (u32, u32),
    pub position: (i32, i32),
    pub primary: bool,
    pub hidpi_factor_millis: u32,
    pub rect: AaRect,
    pub video_modes: Seq<VideoMode>,
}

impl View for MonitorHandle {
    type V = MonitorHandleView;

    open spec fn view(&self) -> MonitorHandleView {
        MonitorHandleView {
            id: self.id,
            name: self.name@,
            dimensions: self.dimensions,
            position: self.position,
            primary: self.primary,
            hidpi_factor_millis: self.hidpi_factor_millis,
            rect: self.rect,
            video_modes: self.video_modes@,
        }
    }
}

impl DeepView for MonitorHandle {
    type V = MonitorHandleView;

    open spec fn deep_view(&self) -> MonitorHandleView {
        self.view()
    }
}

impl Clone for MonitorHandle {
    fn clone(&self) -> (r: Self)
        ensures
            r@ == self@,
    {
        let mut video_modes: Vec<VideoMode> = Vec::new();
        let mut i: usize = 0;
        while i < self.video_modes.len()
            invariant
                i <= self.video_modes.len(),
                video_modes@ == self.video_modes@.take(i as int),
            decreases self.video_modes.len() - i,
        {
            video_modes.push(self.video_modes[i]);
            proof {
                assert(video_modes@ =~= self.video_modes@.take(i + 1));
            }
            i += 1;
        }
        proof {
            assert(video_modes@ =~= self.video_modes@);
        }
        MonitorHandle {
            id: self.id,
            name: self.name.clone(),
            dimensions: self.dimensions,
            position: self.position,
            primary: self.primary,
            hidpi_factor_millis: self.hidpi_factor_millis,
            rect: self.rect,
            video_modes,
        }
    }
}

impl MonitorHandle {
    /// Assembles a descriptor from the values the platform query produced.
    ///
    /// The covered rectangle is derived from the position and dimensions.
    pub fn from_repr(
        id: u32,
        name: String,
        hidpi_factor_millis: u32,
        video_modes: Vec<VideoMode>,
        dimensions: (u32, u32),
        position: (i32, i32),
        primary: bool,
    ) -> (r: Self)
        ensures
            r.id == id,
            r.name@ == name@,
            r.dimensions == dimensions,
            r.position == position,
            r.primary == primary,
            r.hidpi_factor_millis == hidpi_factor_millis,
            r.video_modes@ == video_modes@,
            r.rect.left == position.0 as i64,
            r.rect.top == position.1 as i64,
            r.rect.right == position.0 as i64 + dimensions.0 as i64,
            r.rect.bottom == position.1 as i64 + dimensions.1 as i64,
            crate::util::in_range(r.rect),
    {
        let rect = AaRect::new(position, dimensions);
        MonitorHandle {
            id,
            name,
            dimensions,
            position,
            primary,
            hidpi_factor_millis,
            rect,
            video_modes,
        }
    }

    /// The monitor's name.
    pub fn name(&self) -> (r: Option<String>)
        ensures
            r is Some && r->0@ == self.name@,
    {
        Some(self.name.clone())
    }

    /// The monitor's name; the same as [`Self::name`].
    pub fn get_name(&self) -> (r: Option<String>)
        ensures
            r is Some && r->0@ == self.name@,
    {
        self.name()
    }

    /// The identifier the platform gave this output.
    pub fn native_identifier(&self) -> (r: u32)
        ensures
            r == self.id,
    {
        self.id
    }

    /// The monitor's resolution.
    pub fn size(&self) -> (r: PhysicalSize)
        ensures
            r == (PhysicalSize { width: self.dimensions.0, height: self.dimensions.1 }),
    {
        PhysicalSize { width: self.dimensions.0, height: self.dimensions.1 }
    }

    /// The monitor's resolution; the same as [`Self::size`].
    pub fn get_dimensions(&self) -> (r: PhysicalSize)
        ensures
            r == (PhysicalSize { width: self.dimensions.0, height: self.dimensions.1 }),
    {
        self.size()
    }

    /// The monitor's top-left corner, relative to the whole screen area.
    pub fn position(&self) -> (r: PhysicalPosition)
        ensures
            r == (PhysicalPosition { x: self.position.0 as i64, y: self.position.1 as i64 }),
    {
        PhysicalPosition { x: self.position.0 as i64, y: self.position.1 as i64 }
    }

    /// The monitor's top-left corner; the same as [`Self::position`].
    pub fn get_position(&self) -> (r: PhysicalPosition)
        ensures
            r == (PhysicalPosition { x: self.position.0 as i64, y: self.position.1 as i64 }),
    {
        self.position()
    }

    /// The DPI scale factor, in thousandths.
    pub fn hidpi_factor(&self) -> (r: u32)
        ensures
            r == self.hidpi_factor_millis,
    {
        self.hidpi_factor_millis
    }

    /// The DPI scale factor, in thousandths; the same as [`Self::hidpi_factor`].
    pub fn get_hidpi_factor(&self) -> (r: u32)
        ensures
            r == self.hidpi_factor_millis,
    {
        self.hidpi_factor()
    }

    /// The video modes this monitor supports.
    pub fn video_modes(&self) -> (r: Vec<VideoMode>)
        ensures
            r@ == self@.video_modes,
    {
        let copy = self.clone();
        copy.video_modes
    }
}


/// The index and overlap area of the best monitor among the first `n`,
/// starting from index 0 with area 0: a later monitor wins only with a
/// strictly larger overlap.
pub open spec fn spec_best_monitor(
    monitors: Seq<MonitorHandleView>,
    rect: AaRect,
    n: int,
) -> (int, int)
    decreases n,
{
    if n <= 0 {
        (0, 0)
    } else {
        let prev = spec_best_monitor(monitors, rect, n - 1);
        let area = spec_overlapping_area(rect, monitors[n - 1].rect);
        if area > prev.1 {
            (n - 1, area)
        } else {
            prev
        }
    }
}

/// The monitor a window should be considered on: the one sharing the
/// largest area with `window_rect`, or the first monitor when no rectangle
/// is given or none overlaps.
pub fn get_monitor_for_window(
    monitors: &Vec<MonitorHandle>,
    window_rect: Option<AaRect>,
) -> (r: MonitorHandle)
    requires
        monitors@.len() > 0,
        forall|i: int|
            0 <= i < monitors@.len() ==> crate::util::in_range(
                #[trigger] monitors.deep_view()[i].rect,
            ),
        window_rect is Some ==> crate::util::in_range(window_rect->0),
    ensures
        window_rect is None ==> r@ == monitors.deep_view()[0],
        window_rect is Some ==> r@ == monitors.deep_view()[spec_best_monitor(
            monitors.deep_view(),
            window_rect->0,
            monitors@.len() as int,
        ).0],
{
    let rect = match window_rect {
        Some(rect) => rect,
        None => {
            return monitors[0].clone();
        },
    };
    let ghost dv = monitors.deep_view();
    let mut best_idx: usize = 0;
    let mut best_area: u128 = 0;
    let mut i: usize = 0;
    while i < monitors.len()
        invariant
            0 < monitors@.len(),
            i <= monitors@.len(),
            dv == monitors.deep_view(),
            forall|k: int| 0 <= k < monitors@.len() ==> crate::util::in_range(#[trigger] dv[k].rect),
            crate::util::in_range(rect),
            best_idx < monitors@.len(),
            best_idx == spec_best_monitor(dv, rect, i as int).0,
            best_area == spec_best_monitor(dv, rect, i as int).1,
        decreases monitors@.len() - i,
    {
        proof {
            assert(dv[i as int].rect == monitors@[i as int]@.rect);
        }
        let area = rect.get_overlapping_area(&monitors[i].rect);
        if area > best_area {
            best_area = area;
            best_idx = i;
        }
        i += 1;
    }
    monitors[best_idx].clone()
}


/// Copies a monitor list, descriptor by descriptor.
pub fn clone_monitor_list(monitors: &Vec<MonitorHandle>) -> (r: Vec<MonitorHandle>)
    ensures
        r.deep_view() == monitors.deep_view(),
{
    let mut r: Vec<MonitorHandle> = Vec::new();
    let mut i: usize = 0;
    while i < monitors.len()
        invariant
            i <= monitors@.len(),
            r@.len() == i,
            forall|k: int| 0 <= k < i ==> r.deep_view()[k] == monitors.deep_view()[k],
        decreases monitors@.len() - i,
    {
        r.push(monitors[i].clone());
        i += 1;
    }
    proof {
        assert(r.deep_view() =~~= monitors.deep_view());
    }
    r
}

/// The index of the first descriptor marked primary.
pub open spec fn spec_first_primary(monitors: Seq<MonitorHandleView>) -> int
    decreases monitors.len(),
{
    if monitors.len() == 0 {
        0
    } else if monitors[0].primary {
        0
    } else {
        1 + spec_first_primary(monitors.drop_first())
    }
}

/// Where some descriptor is primary, the first-primary index points at
/// the first one.
pub proof fn lemma_first_primary_char(monitors: Seq<MonitorHandleView>)
    requires
        spec_has_primary(monitors),
    ensures
        0 <= spec_first_primary(monitors) < monitors.len(),
        monitors[spec_first_primary(monitors)].primary,
        forall|k: int| 0 <= k < spec_first_primary(monitors) ==> !monitors[k].primary,
    decreases monitors.len(),
{
    if monitors.len() == 0 {
    } else if monitors[0].primary {
    } else {
        assert(spec_has_primary(monitors.drop_first())) by {
            let k = choose|k: int| 0 <= k < monitors.len() && monitors[k].primary;
            assert(monitors.drop_first()[k - 1].primary);
        }
        lemma_first_primary_char(monitors.drop_first());
        assert forall|k: int| 0 <= k < spec_first_primary(monitors) implies !monitors[
            k
        ].primary by {
            if k > 0 {
                assert(!monitors.drop_first()[k - 1].primary);
            }
        }
    }
}

/// An iterator over enumerated monitors; each call to [`Self::next`] hands
/// out the next descriptor.
#[derive(Debug)]
pub struct AvailableMonitorsIter {
    /// The descriptors not yet handed out, front first.
    pub data: Vec<MonitorHandle>,
}

impl AvailableMonitorsIter {
    /// The next monitor, or `None` when all have been handed out.
    pub fn next(&mut self) -> (r: Option<MonitorHandle>)
        ensures
            old(self).data@.len() == 0 ==> r is None && final(self).data@ == old(self).data@,
            old(self).data@.len() > 0 ==> r is Some && r->0 == old(self).data@[0]
                && final(self).data@ == old(self).data@.drop_first(),
    {
        if self.data.len() == 0 {
            None
        } else {
            let m = self.data.remove(0);
            proof {
                assert(final(self).data@ =~= old(self).data@.drop_first());
            }
            Some(m)
        }
    }

    /// How many monitors are left.
    pub fn size_hint(&self) -> (r: usize)
        ensures
            r == self.data@.len(),
    {
        self.data.len()
    }
}

/// Whether an XRandR version `avail` is at least `major.minor`.
pub fn version_is_at_least(avail: (i32, i32), major: i32, minor: i32) -> (r: bool)
    ensures
        r == spec_version_is_at_least(avail, major as int, minor as int),
{
    if avail.0 == major {
        avail.1 >= minor
    } else {
        avail.0 > major
    }
}

pub open spec fn spec_version_is_at_least(avail: (i32, i32), major: int, minor: int) -> bool {
    if avail.0 == major {
        avail.1 >= minor
    } else {
        avail.0 > major
    }
}

/// Whether some descriptor in the sequence is marked primary.
pub open spec fn spec_has_primary(monitors: Seq<MonitorHandleView>) -> bool {
    exists|i: int| 0 <= i < monitors.len() && monitors[i].primary
}

/// Applies the primary fallback to a freshly enumerated list: when no
/// monitor was reported primary, the first one is marked primary.
pub fn finalize_monitor_list(monitors: Vec<MonitorHandle>) -> (r: Vec<MonitorHandle>)
    ensures
        r.deep_view() == spec_finalize_monitor_list(monitors.deep_view()),
        monitors.deep_view().len() > 0 ==> spec_has_primary(r.deep_view()),
{
    let ghost orig = monitors.deep_view();
    let mut monitors = monitors;
    let mut has_primary = false;
    let mut i: usize = 0;
    while i < monitors.len()
        invariant
            i <= monitors.len(),
            monitors.deep_view() == orig,
            has_primary == exists|k: int| 0 <= k < i && orig[k].primary,
        decreases monitors.len() - i,
    {
        if monitors[i].primary {
            proof {
                assert(orig[i as int].primary);
            }
            has_primary = true;
        }
        proof {
            if has_primary && !monitors[i as int].primary {
                let k = choose|k: int| 0 <= k < i && orig[k].primary;
                assert(0 <= k < i + 1 && orig[k].primary);
            }
        }
        i += 1;
    }
    proof {
        assert(has_primary == spec_has_primary(orig));
    }
    if !has_primary && monitors.len() > 0 {
        let mut first = monitors.remove(0);
        first.primary = true;
        monitors.insert(0, first);
        proof {
            assert(monitors.deep_view() =~~= spec_finalize_monitor_list(orig));
            assert(monitors.deep_view()[0].primary);
        }
    } else {
        proof {
            assert(monitors.deep_view() =~~= spec_finalize_monitor_list(orig));
            if monitors.deep_view().len() > 0 && has_primary {
                let k = choose|k: int| 0 <= k < monitors.deep_view().len() && orig[k].primary;
                assert(monitors.deep_view()[k].primary);
            }
        }
    }
    monitors
}

/// The primary fallback, mathematically: when the list is non-empty and no
/// entry is primary, the first entry is marked primary.
pub open spec fn spec_finalize_monitor_list(
    monitors: Seq<MonitorHandleView>,
) -> Seq<MonitorHandleView> {
    if monitors.len() > 0 && !spec_has_primary(monitors) {
        monitors.update(0, MonitorHandleView { primary: true, ..monitors[0] })
    } else {
        monitors
    }
}

} // verus!
