//! Moving a window by parts of its page.

use vstd::prelude::*;

use crate::geometry::Rect;
use crate::webview::InitializationScript;

verus! {

/// Marks the draggable parts of a page by a style of their own. The style waits for
/// the page, so that it can take over the nonce that the page's content security
/// policy asks for.
pub const DRAG_REGION_SCRIPT: &'static str = r#"
(() => {
  addEventListener("DOMContentLoaded", () => {
    const style = document.createElement("style");
    const nonce = document.querySelector("style[nonce], script[nonce]")?.nonce;
    if (nonce) style.nonce = nonce;
    style.textContent = `
      [data-tauri-drag-region]:not([data-tauri-drag-region="false"]) {
        -webkit-app-region: drag;
      }
      [data-tauri-drag-region]:not([data-tauri-drag-region="deep"]) * {
        -webkit-app-region: no-drag;
      }
      [data-tauri-drag-region="false"],
      [data-tauri-drag-region="deep"] :is(a, button, input, select, textarea, label, summary,
        [contenteditable]:not([contenteditable="false"]), [tabindex]:not([tabindex="-1"]),
        [role="button"], [role="link"], [role="menuitem"], [role="tab"], [role="checkbox"],
        [role="radio"], [role="switch"], [role="option"]):not([data-tauri-drag-region]) {
        -webkit-app-region: no-drag;
      }
    `;
    (document.head || document.documentElement).append(style);
  }, { once: true });
})();
"#;

/// The script that makes the draggable parts of a page draggable.
pub fn drag_region_initialization_script() -> (r: InitializationScript)
    ensures
        r.script@ == DRAG_REGION_SCRIPT@,
        r.for_main_frame_only,
{
    InitializationScript { script: DRAG_REGION_SCRIPT.to_owned(), for_main_frame_only: true }
}

/// A part of a page by which the window can be moved, or not.
#[derive(Clone, Copy, Debug, PartialEq, Eq, Structural)]
pub struct DraggableRegion {
    pub bounds: Rect,
    pub draggable: i32,
}

/// The draggable regions of a page, and the window that is told of them, once there
/// is one.
#[derive(Debug)]
pub struct DraggableRegions<W> {
    pub window: Option<W>,
    pub regions: Vec<DraggableRegion>,
}

/// How a window is told of its regions: without any, it is told of none.
pub open spec fn told(regions: Seq<DraggableRegion>) -> Option<Seq<DraggableRegion>> {
    if regions.len() == 0 {
        None
    } else {
        Some(regions)
    }
}

/// The regions that a page reports: none where it reports nothing.
pub open spec fn reported(regions: Option<Seq<DraggableRegion>>) -> Seq<DraggableRegion> {
    match regions {
        Some(regions) => regions,
        None => Seq::empty(),
    }
}

/// The contents of a list, if there is one.
pub open spec fn contents(regions: Option<Vec<DraggableRegion>>) -> Option<Seq<DraggableRegion>> {
    match regions {
        Some(regions) => Some(regions@),
        None => None,
    }
}

impl<W> DraggableRegions<W> {
    /// No regions, and no window yet.
    pub fn new() -> (r: DraggableRegions<W>)
        ensures
            r.window is None,
            r.regions@.len() == 0,
    {
        DraggableRegions { window: None, regions: Vec::new() }
    }

    /// The present regions, as a window is told of them.
    pub fn to_tell(&self) -> (r: Option<Vec<DraggableRegion>>)
        ensures
            contents(r) == told(self.regions@),
            r is None <==> self.regions@.len() == 0,
            r matches Some(list) ==> list@ == self.regions@,
    {
        if self.regions.len() == 0 {
            return None;
        }
        let mut copy: Vec<DraggableRegion> = Vec::new();
        for i in 0..self.regions.len()
            invariant
                copy@ == self.regions@.take(i as int),
        {
            copy.push(self.regions[i]);
            assert(self.regions@.take(i + 1) =~= self.regions@.take(i as int).push(
                self.regions@[i as int],
            ));
        }
        assert(self.regions@.take(self.regions@.len() as int) =~= self.regions@);
        Some(copy)
    }

    /// From now on `window` is told of the regions. Returned is what it is told
    /// first: the present ones.
    pub fn attach(&mut self, window: W) -> (r: Option<Vec<DraggableRegion>>)
        ensures
            final(self).window == Some(window),
            final(self).regions == old(self).regions,
            contents(r) == told(old(self).regions@),
            r is None <==> old(self).regions@.len() == 0,
            r matches Some(list) ==> list@ == old(self).regions@,
    {
        self.window = Some(window);
        self.to_tell()
    }

    /// Takes the regions that the page reports. Returned is what the window is
    /// told, if there is one.
    pub fn set(&mut self, regions: Option<Vec<DraggableRegion>>) -> (r: Option<Option<Vec<DraggableRegion>>>)
        ensures
            final(self).window == old(self).window,
            final(self).regions@ == reported(contents(regions)),
            r is Some <==> old(self).window is Some,
            r matches Some(regions_told) ==> contents(regions_told) == told(
                reported(contents(regions)),
            ),
            regions matches Some(list) ==> final(self).regions == list,
            regions is None ==> final(self).regions@.len() == 0,
            r matches Some(None) ==> final(self).regions@.len() == 0,
            r matches Some(Some(list)) ==> list@ == final(self).regions@ && list@.len() > 0,
    {
        self.regions = match regions {
            Some(regions) => regions,
            None => Vec::new(),
        };
        if self.window.is_some() {
            Some(self.to_tell())
        } else {
            None
        }
    }
}

/// Something that happens to the regions: a window is attached, or the page reports.
pub enum RegionStep {
    Attach,
    Report(Option<Seq<DraggableRegion>>),
}

/// The regions, whether a window is attached, and what the window attached last was
/// told last.
pub struct Shown {
    pub attached: bool,
    pub regions: Seq<DraggableRegion>,
    pub told: Option<Seq<DraggableRegion>>,
}

/// Where a series of steps leads to.
pub open spec fn shown_after(steps: Seq<RegionStep>) -> Shown
    decreases steps.len(),
{
    if steps.len() == 0 {
        Shown { attached: false, regions: Seq::empty(), told: None }
    } else {
        let before = shown_after(steps.drop_last());
        match steps.last() {
            RegionStep::Attach => Shown { attached: true, told: told(before.regions), ..before },
            RegionStep::Report(regions) => Shown {
                regions: reported(regions),
                told: if before.attached {
                    told(reported(regions))
                } else {
                    before.told
                },
                ..before
            },
        }
    }
}

/// The regions that were reported last in a series of steps.
pub open spec fn last_reported(steps: Seq<RegionStep>) -> Seq<DraggableRegion>
    decreases steps.len(),
{
    if steps.len() == 0 {
        Seq::empty()
    } else {
        match steps.last() {
            RegionStep::Attach => last_reported(steps.drop_last()),
            RegionStep::Report(regions) => reported(regions),
        }
    }
}

/// Whether the page reports before or after the window is there makes no
/// difference: a window that is attached was last told the regions last reported.
pub proof fn window_knows_the_regions(steps: Seq<RegionStep>)
    ensures
        shown_after(steps).regions == last_reported(steps),
        shown_after(steps).attached ==> shown_after(steps).told == told(last_reported(steps)),
        steps.contains(RegionStep::Attach) ==> shown_after(steps).attached,
    decreases steps.len(),
{
    if steps.len() > 0 {
        let fewer = steps.drop_last();
        window_knows_the_regions(fewer);
        if steps.contains(RegionStep::Attach) && !(steps.last() is Attach) {
            let i = choose|i: int| 0 <= i < steps.len() && steps[i] == RegionStep::Attach;
            assert(fewer[i] == RegionStep::Attach);
        }
    }
}

/// A window is told of every region that the page reports, draggable or not: as many
/// of them, each in its place. It is told of none exactly when the page reports
/// none.
pub proof fn every_region_is_told_of(regions: Seq<DraggableRegion>, steps: Seq<RegionStep>)
    ensures
        told(regions) is None <==> regions.len() == 0,
        told(regions) matches Some(list) ==> {
            &&& list.len() == regions.len()
            &&& forall|i: int| 0 <= i < regions.len() ==> #[trigger] list[i] == regions[i]
        },
        reported(Some(regions)).len() == regions.len(),
        forall|i: int| 0 <= i < regions.len() ==> #[trigger] reported(Some(regions))[i] == regions[i],
        reported(None).len() == 0,
        ({
            let shown = shown_after(steps.push(RegionStep::Report(Some(regions))).push(RegionStep::Attach));
            &&& shown.attached
            &&& shown.told is None <==> regions.len() == 0
            &&& shown.told matches Some(list) ==> list =~= regions
        }),
        ({
            let shown = shown_after(steps.push(RegionStep::Attach).push(RegionStep::Report(Some(regions))));
            &&& shown.attached
            &&& shown.told is None <==> regions.len() == 0
            &&& shown.told matches Some(list) ==> list =~= regions
        }),
{
    reveal_with_fuel(shown_after, 3);
    let report = RegionStep::Report(Some(regions));
    let reported_first = steps.push(report);
    let attached_first = steps.push(RegionStep::Attach);
    assert(reported_first.push(RegionStep::Attach).drop_last() =~= reported_first);
    assert(reported_first.drop_last() =~= steps);
    assert(attached_first.push(report).drop_last() =~= attached_first);
    assert(attached_first.drop_last() =~= steps);
}

/// The contents of a list are the list's.
pub proof fn contents_are_the_lists(regions: Option<Vec<DraggableRegion>>)
    ensures
        contents(regions) is Some <==> regions is Some,
        regions matches Some(list) ==> contents(regions) == Some(list@),
{
}

} // verus!
