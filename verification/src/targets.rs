//! Which windows can be captured, and in which order they are offered.
//!
//! Invisible windows are obvious; cloaked windows are the subtle ones:
//! suspended apps stay visible to the system while rendering nothing.

pub mod laws;

use crate::text_ops::{chars_of, same_text, string_of};
use vstd::prelude::*;
use vstd::string::*;

verus! {

/// A window that can be captured.
#[derive(Debug, Clone)]
pub struct CaptureTarget {
    pub hwnd: isize,
    pub pid: u32,
    pub title: String,
    pub process: String,
    pub width: i32,
    pub height: i32,
}

/// Large enough and titled.
pub open spec fn interesting(target: CaptureTarget) -> bool {
    target.width >= 320 && target.height >= 240 && target.title@.len() > 0
}

impl CaptureTarget {
    /// A rough heuristic that keeps tool windows and tiny popups out.
    pub fn is_interesting(&self) -> (yes: bool)
        ensures
            yes == interesting(*self),
    {
        self.width >= 320 && self.height >= 240 && !self.title.as_str().is_empty()
    }

    /// The area of the window.
    pub open spec fn area(&self) -> int {
        self.width * self.height
    }
}

/// Window classes of the shell and of overlays. They are visible, titled and
/// owned by nothing, so no general rule tells them from applications.
pub open spec fn excluded_class(class: Seq<char>) -> bool {
    ||| class == "Progman"@
    ||| class == "WorkerW"@
    ||| class == "Shell_TrayWnd"@
    ||| class == "Shell_SecondaryTrayWnd"@
    ||| class == "Windows.UI.Core.CoreWindow"@
    ||| class == "ApplicationFrameWindow_Hidden"@
    ||| class == "CEF-OSC-WIDGET"@
    ||| class == "XamlExplorerHostIslandWindow"@
}

/// Roughly what a user would see when switching between windows: visible, not
/// cloaked, its own root owner, no tool window, and no part of the shell.
pub fn is_app_window(
    visible: bool,
    cloaked: bool,
    own_root: bool,
    tool_window: bool,
    class: &str,
) -> (yes: bool)
    ensures
        yes == (visible && !cloaked && own_root && !tool_window && !excluded_class(class@)),
{
    visible && !cloaked && own_root && !tool_window && !(same_text(class, "Progman") || same_text(
        class,
        "WorkerW",
    ) || same_text(class, "Shell_TrayWnd") || same_text(class, "Shell_SecondaryTrayWnd")
        || same_text(class, "Windows.UI.Core.CoreWindow") || same_text(
        class,
        "ApplicationFrameWindow_Hidden",
    ) || same_text(class, "CEF-OSC-WIDGET") || same_text(class, "XamlExplorerHostIslandWindow"))
}

/// A rectangle on the screen.
#[derive(Debug, Clone, Copy, PartialEq, Eq, Structural)]
pub struct Rect {
    pub left: i32,
    pub top: i32,
    pub right: i32,
    pub bottom: i32,
}

/// Both sides of the rectangle fit their type.
pub open spec fn measurable(rect: Rect) -> bool {
    i32::MIN <= rect.right - rect.left <= i32::MAX && i32::MIN <= rect.bottom - rect.top
        <= i32::MAX
}

/// The size of a window: that of its client area where it has one, else that
/// of its frame.
pub fn target_size(frame: Rect, client: Option<Rect>) -> (size: (i32, i32))
    requires
        measurable(frame),
        client is Some ==> measurable(client.unwrap()),
    ensures
        ({
            let rect = match client {
                Some(client) if client.right > client.left && client.bottom > client.top => client,
                _ => frame,
            };
            size == ((rect.right - rect.left) as i32, (rect.bottom - rect.top) as i32)
        }),
{
    if let Some(client) = client {
        if client.right > client.left && client.bottom > client.top {
            return (client.right - client.left, client.bottom - client.top);
        }
    }
    (frame.right - frame.left, frame.bottom - frame.top)
}

/// The size to capture, where both sides are positive.
pub fn capture_dimensions(width: i32, height: i32) -> (size: Option<(u32, u32)>)
    ensures
        size == (if width > 0 && height > 0 {
            Some((width as u32, height as u32))
        } else {
            None
        }),
{
    if width > 0 && height > 0 {
        Some((width as u32, height as u32))
    } else {
        None
    }
}

/// The process that owns a window; the identifier zero stands for none.
pub fn pid_for_hwnd(pid: u32) -> (owner: Option<u32>)
    ensures
        owner == (if pid != 0 {
            Some(pid)
        } else {
            None
        }),
{
    if pid != 0 {
        Some(pid)
    } else {
        None
    }
}

/// The part of a path behind its last backslash.
pub open spec fn base_name(path: Seq<char>) -> Seq<char>
    decreases path.len(),
{
    if path.len() == 0 {
        path
    } else if path.last() == '\\' {
        Seq::empty()
    } else {
        base_name(path.drop_last()).push(path.last())
    }
}

/// The file name of a process's executable.
pub fn process_name(path: &str) -> (name: String)
    ensures
        name@ == base_name(path@),
{
    let chars = chars_of(path);
    let n: usize = chars.len();
    let mut start: usize = n;
    proof {
        assert(chars@.take(n as int) =~= path@);
        assert(base_name(path@) =~= base_name(chars@.take(n as int)) + chars@.subrange(
            n as int,
            n as int,
        ));
    }
    while start > 0 && chars[start - 1] != '\\'
        invariant
            start <= n == chars@.len(),
            base_name(path@) == base_name(chars@.take(start as int)) + chars@.subrange(
                start as int,
                n as int,
            ),
        decreases start,
    {
        proof {
            let head = chars@.take(start as int);
            assert(head.drop_last() =~= chars@.take(start - 1));
            assert(head.last() == chars@[start - 1]);
            assert(base_name(head) + chars@.subrange(start as int, n as int) =~= base_name(
                chars@.take(start - 1),
            ) + chars@.subrange(start - 1, n as int));
        }
        start -= 1;
    }
    proof {
        assert(base_name(chars@.take(start as int)) =~= Seq::<char>::empty());
        assert(base_name(path@) =~= chars@.subrange(start as int, n as int));
    }
    string_of(&chars, start, n)
}

/// The targets stand in order of falling area.
pub open spec fn largest_first(targets: Seq<CaptureTarget>) -> bool {
    forall|i: int, j: int|
        0 <= i < j < targets.len() ==> (#[trigger] targets[i]).area() >= (
        #[trigger] targets[j]).area()
}

/// Puts a target behind all that are at least as large.
pub open spec fn placed(targets: Seq<CaptureTarget>, target: CaptureTarget) -> Seq<CaptureTarget>
    decreases targets.len(),
{
    if targets.len() == 0 || targets.last().area() >= target.area() {
        targets.push(target)
    } else {
        placed(targets.drop_last(), target).push(targets.last())
    }
}

/// The targets by falling area; of equal ones the first stays first.
pub open spec fn by_area(targets: Seq<CaptureTarget>) -> Seq<CaptureTarget>
    decreases targets.len(),
{
    if targets.len() == 0 {
        targets
    } else {
        placed(by_area(targets.drop_last()), targets.last())
    }
}

fn area_of(target: &CaptureTarget) -> (area: i64)
    ensures
        area == target.area(),
{
    let width: i64 = target.width as i64;
    let height: i64 = target.height as i64;
    proof {
        assert(-0x8000_0000 <= width <= 0x7fff_ffff && -0x8000_0000 <= height <= 0x7fff_ffff);
        assert(-0x4000_0000_0000_0000 <= width * height <= 0x4000_0000_0000_0000) by (nonlinear_arith)
            requires
                -0x8000_0000 <= width <= 0x7fff_ffff,
                -0x8000_0000 <= height <= 0x7fff_ffff,
        ;
    }
    width * height
}

fn place(targets: &mut Vec<CaptureTarget>, target: CaptureTarget)
    ensures
        final(targets)@ == placed(old(targets)@, target),
{
    let ghost before = targets@;
    let area: i64 = area_of(&target);
    let mut at: usize = targets.len();
    proof {
        assert(before.take(at as int) =~= before);
        assert(placed(before, target) =~= placed(before.take(at as int), target) + before.skip(
            at as int,
        ));
    }
    while at > 0 && area_of(&targets[at - 1]) < area
        invariant
            at <= targets@.len(),
            targets@ == before,
            area == target.area(),
            placed(before, target) == placed(before.take(at as int), target) + before.skip(
                at as int,
            ),
        decreases at,
    {
        proof {
            let head = before.take(at as int);
            assert(head.drop_last() =~= before.take(at - 1));
            assert(placed(head, target) + before.skip(at as int) =~= placed(
                before.take(at - 1),
                target,
            ) + before.skip(at - 1));
        }
        at -= 1;
    }
    targets.insert(at, target);
    proof {
        assert(placed(before.take(at as int), target) == before.take(at as int).push(target));
        assert(targets@ =~= before.take(at as int).push(target) + before.skip(at as int));
    }
}

/// The windows to offer: the interesting ones, the biggest first, since the
/// game is almost always the largest window on screen.
pub fn list_windows(found: Vec<CaptureTarget>) -> (offered: Vec<CaptureTarget>)
    ensures
        offered@ == by_area(found@.filter(|target: CaptureTarget| interesting(target))),
{
    let ghost all = found@;
    let mut rest = found;
    let mut kept: Vec<CaptureTarget> = Vec::new();
    let ghost wanted = |target: CaptureTarget| interesting(target);
    proof {
        reveal(Seq::filter);
        assert(all.take(0).filter(wanted) =~= Seq::empty());
        assert(all.skip(0) =~= all);
    }
    let n: usize = rest.len();
    let mut i: usize = 0;
    while i < n
        invariant
            i <= n == all.len(),
            rest@ == all.skip(i as int),
            wanted == (|target: CaptureTarget| interesting(target)),
            kept@ == by_area(all.take(i as int).filter(wanted)),
        decreases n - i,
    {
        let target = rest.remove(0);
        proof {
            reveal(Seq::filter);
            assert(rest@ =~= all.skip(i + 1));
            assert(all.take(i + 1).drop_last() =~= all.take(i as int));
            assert(all.take(i + 1).last() == target);
        }
        if target.is_interesting() {
            proof {
                let seen = all.take(i as int).filter(wanted);
                assert(all.take(i + 1).filter(wanted) == seen.push(target));
                assert(seen.push(target).drop_last() =~= seen);
            }
            place(&mut kept, target);
        }
        i += 1;
    }
    proof {
        assert(all.take(n as int) =~= all);
    }
    kept
}

proof fn lemma_placed(targets: Seq<CaptureTarget>, target: CaptureTarget)
    requires
        largest_first(targets),
    ensures
        largest_first(placed(targets, target)),
        placed(targets, target).to_multiset() == targets.to_multiset().insert(target),
        placed(targets, target).len() == targets.len() + 1,
    decreases targets.len(),
{
    broadcast use vstd::seq_lib::group_to_multiset_ensures;

    if targets.len() > 0 && targets.last().area() < target.area() {
        let rest = targets.drop_last();
        let last = targets.last();
        assert(largest_first(rest)) by {
            assert forall|i: int, j: int| 0 <= i < j < rest.len() implies (#[trigger] rest[i]).area()
                >= (#[trigger] rest[j]).area() by {
                assert(targets[i].area() >= targets[j].area());
            }
        }
        lemma_placed(rest, target);
        let before = placed(rest, target);
        assert(targets =~= rest.push(last));
        assert forall|i: int, j: int| 0 <= i < j < before.push(last).len() implies (
        #[trigger] before.push(last)[i]).area() >= (#[trigger] before.push(last)[j]).area() by {
            if j == before.len() {
                lemma_placed_holds(rest, target, i);
                if before[i] != target {
                    let k = choose|k: int| 0 <= k < rest.len() && rest[k] == before[i];
                    assert(targets[k].area() >= targets[targets.len() - 1].area());
                }
            }
        }
        assert(before.push(last).to_multiset() =~= targets.to_multiset().insert(target));
    } else {
        let result = targets.push(target);
        assert forall|i: int, j: int| 0 <= i < j < result.len() implies (#[trigger] result[i]).area()
            >= (#[trigger] result[j]).area() by {
            if j == targets.len() {
                assert(targets[i].area() >= targets[targets.len() - 1].area() || i == targets.len()
                    - 1);
            }
        }
    }
}

proof fn lemma_placed_holds(targets: Seq<CaptureTarget>, target: CaptureTarget, i: int)
    requires
        0 <= i < placed(targets, target).len(),
    ensures
        placed(targets, target)[i] == target || exists|k: int|
            0 <= k < targets.len() && targets[k] == placed(targets, target)[i],
    decreases targets.len(),
{
    let result = placed(targets, target);
    if targets.len() > 0 && targets.last().area() < target.area() {
        let rest = targets.drop_last();
        let before = placed(rest, target);
        if i < before.len() {
            lemma_placed_holds(rest, target, i);
            if before[i] != target {
                let k = choose|k: int| 0 <= k < rest.len() && rest[k] == before[i];
                assert(targets[k] == result[i]);
            }
        } else {
            assert(targets[targets.len() - 1] == result[i]);
        }
    } else {
        if i < targets.len() {
            assert(targets[i] == result[i]);
        }
    }
}

/// Ordering the targets loses none and invents none, and puts the largest
/// first.
pub proof fn ordering_keeps_every_target(targets: Seq<CaptureTarget>)
    ensures
        largest_first(by_area(targets)),
        by_area(targets).to_multiset() == targets.to_multiset(),
    decreases targets.len(),
{
    broadcast use vstd::seq_lib::group_to_multiset_ensures;

    if targets.len() > 0 {
        let rest = targets.drop_last();
        ordering_keeps_every_target(rest);
        lemma_placed(by_area(rest), targets.last());
        assert(targets =~= rest.push(targets.last()));
    }
}

/// An idle window is asked for a fresh frame; the whole screen needs none.
pub fn request_redraw(hwnd: isize) -> (ask: bool)
    ensures
        ask == (hwnd != 0),
{
    hwnd != 0
}

} // verus!
