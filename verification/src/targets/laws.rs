//! Which windows are offered, and in which order.

use vstd::prelude::*;
use vstd::string::*;

use super::{CaptureTarget, Rect};
use crate::targets;

verus! {

/// Every window that is large enough and has a title is offered, and no other;
/// the largest comes first.
pub proof fn every_interesting_window_is_offered(
    found: Vec<CaptureTarget>,
    offered: Vec<CaptureTarget>,
)
    requires
        call_ensures(targets::list_windows, (found,), offered),
    ensures
        forall|i: int|
            0 <= i < found@.len() && (#[trigger] found@[i]).width >= 320 && found@[i].height >= 240
                && found@[i].title@.len() > 0 ==> offered@.contains(found@[i]),
        forall|j: int|
            0 <= j < offered@.len() ==> (#[trigger] offered@[j]).width >= 320 && offered@[j].height
                >= 240 && offered@[j].title@.len() > 0 && found@.contains(offered@[j]),
        forall|i: int, j: int|
            0 <= i < j < offered@.len() ==> (#[trigger] offered@[i]).width * offered@[i].height >= (
            #[trigger] offered@[j]).width * offered@[j].height,
{
    broadcast use vstd::seq_lib::group_to_multiset_ensures;
    broadcast use vstd::seq_lib::group_filter_ensures;

    let wanted = |target: CaptureTarget| targets::interesting(target);
    let kept = found@.filter(wanted);
    targets::ordering_keeps_every_target(kept);
    assert forall|i: int|
        0 <= i < found@.len() && (#[trigger] found@[i]).width >= 320 && found@[i].height >= 240
            && found@[i].title@.len() > 0 implies offered@.contains(found@[i]) by {
        assert(wanted(found@[i]));
        assert(kept.contains(found@[i]));
        assert(kept.to_multiset().contains(found@[i]));
        assert(offered@.to_multiset().contains(found@[i]));
    }
    assert forall|j: int| 0 <= j < offered@.len() implies (#[trigger] offered@[j]).width >= 320
        && offered@[j].height >= 240 && offered@[j].title@.len() > 0 && found@.contains(
        offered@[j],
    ) by {
        assert(offered@.contains(offered@[j]));
        assert(offered@.to_multiset().contains(offered@[j]));
        assert(kept.to_multiset().contains(offered@[j]));
        assert(kept.contains(offered@[j]));
        let k = choose|k: int| 0 <= k < kept.len() && kept[k] == offered@[j];
        assert(wanted(kept[k]));
        lemma_kept_was_found(found@, wanted, offered@[j]);
    }
    assert forall|i: int, j: int| 0 <= i < j < offered@.len() implies (#[trigger] offered@[i]).width
        * offered@[i].height >= (#[trigger] offered@[j]).width * offered@[j].height by {
        assert(offered@[i].area() >= offered@[j].area());
    }
}

proof fn lemma_kept_was_found(
    found: Seq<CaptureTarget>,
    wanted: spec_fn(CaptureTarget) -> bool,
    target: CaptureTarget,
)
    requires
        found.filter(wanted).contains(target),
    ensures
        found.contains(target),
    decreases found.len(),
{
    reveal(Seq::filter);
    if found.len() > 0 {
        let rest = found.drop_last();
        let last = found.last();
        if wanted(last) && last == target {
            assert(found[found.len() - 1] == target);
        } else {
            let kept = found.filter(wanted);
            let k = choose|k: int| 0 <= k < kept.len() && kept[k] == target;
            if wanted(last) {
                assert(kept == rest.filter(wanted).push(last));
                assert(rest.filter(wanted)[k] == target);
            }
            lemma_kept_was_found(rest, wanted, target);
            let i = choose|i: int| 0 <= i < rest.len() && rest[i] == target;
            assert(found[i] == target);
        }
    }
}

/// Of windows of one size the one that was found first stays first: a further
/// window goes behind all that are at least as large and before all others.
pub proof fn earlier_window_stays_first(found: Seq<CaptureTarget>, next: CaptureTarget)
    ensures
        exists|at: int|
            0 <= at <= targets::by_area(found).len() && #[trigger] targets::by_area(
                found.push(next),
            ) == #[trigger] targets::by_area(found).insert(at, next) && (forall|i: int|
                0 <= i < at ==> (#[trigger] targets::by_area(found)[i]).area() >= next.area()) && (
            forall|i: int|
                at <= i < targets::by_area(found).len() ==> (#[trigger] targets::by_area(
                    found,
                )[i]).area() < next.area()),
{
    targets::ordering_keeps_every_target(found);
    assert(found.push(next).drop_last() =~= found);
    lemma_place(targets::by_area(found), next);
}

proof fn lemma_place(order: Seq<CaptureTarget>, next: CaptureTarget)
    requires
        targets::largest_first(order),
    ensures
        exists|at: int|
            0 <= at <= order.len() && targets::placed(order, next) == #[trigger] order.insert(
                at,
                next,
            ) && (forall|i: int| 0 <= i < at ==> (#[trigger] order[i]).area() >= next.area()) && (
            forall|i: int|
                at <= i < order.len() ==> (#[trigger] order[i]).area() < next.area()),
    decreases order.len(),
{
    if order.len() == 0 || order.last().area() >= next.area() {
        let at = order.len() as int;
        assert(order.push(next) =~= order.insert(at, next));
        assert forall|i: int| 0 <= i < at implies (#[trigger] order[i]).area() >= next.area() by {
            if i < at - 1 {
                assert(order[i].area() >= order[at - 1].area());
            }
        }
    } else {
        let rest = order.drop_last();
        assert forall|i: int, j: int| 0 <= i < j < rest.len() implies (#[trigger] rest[i]).area()
            >= (#[trigger] rest[j]).area() by {
            assert(order[i].area() >= order[j].area());
        }
        lemma_place(rest, next);
        let at = choose|at: int|
            0 <= at <= rest.len() && targets::placed(rest, next) == #[trigger] rest.insert(at, next)
                && (forall|i: int| 0 <= i < at ==> (#[trigger] rest[i]).area() >= next.area()) && (
            forall|i: int| at <= i < rest.len() ==> (#[trigger] rest[i]).area() < next.area());
        assert(rest.insert(at, next).push(order.last()) =~= order.insert(at, next));
        assert forall|i: int| 0 <= i < at implies (#[trigger] order[i]).area() >= next.area() by {
            assert(rest[i] == order[i]);
        }
        assert forall|i: int| at <= i < order.len() implies (#[trigger] order[i]).area()
            < next.area() by {
            if i < rest.len() {
                assert(rest[i] == order[i]);
            }
        }
    }
}

/// An ordinary window is an application's; one that is hidden, cloaked, owned
/// by another or a tool is not, and neither is a part of the shell.
pub proof fn ordinary_windows_are_applications(
    visible: bool,
    cloaked: bool,
    own_root: bool,
    tool_window: bool,
    class: &str,
    yes: bool,
)
    requires
        call_ensures(
            targets::is_app_window,
            (visible, cloaked, own_root, tool_window, class),
            yes,
        ),
    ensures
        yes ==> visible && !cloaked && own_root && !tool_window,
        visible && !cloaked && own_root && !tool_window && class@.len() == 0 ==> yes,
        class@ == "Progman"@ || class@ == "WorkerW"@ || class@ == "Shell_TrayWnd"@ || class@
            == "Shell_SecondaryTrayWnd"@ || class@ == "Windows.UI.Core.CoreWindow"@ || class@
            == "ApplicationFrameWindow_Hidden"@ || class@ == "CEF-OSC-WIDGET"@ || class@
            == "XamlExplorerHostIslandWindow"@ ==> !yes,
        visible && !cloaked && own_root && !tool_window && !yes ==> class@ == "Progman"@ || class@
            == "WorkerW"@ || class@ == "Shell_TrayWnd"@ || class@ == "Shell_SecondaryTrayWnd"@
            || class@ == "Windows.UI.Core.CoreWindow"@ || class@
            == "ApplicationFrameWindow_Hidden"@ || class@ == "CEF-OSC-WIDGET"@ || class@
            == "XamlExplorerHostIslandWindow"@,
{
    reveal_strlit("Progman");
    reveal_strlit("WorkerW");
    reveal_strlit("Shell_TrayWnd");
    reveal_strlit("Shell_SecondaryTrayWnd");
    reveal_strlit("Windows.UI.Core.CoreWindow");
    reveal_strlit("ApplicationFrameWindow_Hidden");
    reveal_strlit("CEF-OSC-WIDGET");
    reveal_strlit("XamlExplorerHostIslandWindow");
}

/// The size of a window is that of what it shows: moving it does not change it,
/// and a frame counts only where nothing is shown inside it.
pub proof fn size_is_that_of_the_content(
    frame: Rect,
    client: Rect,
    size: (i32, i32),
    bare: (i32, i32),
)
    requires
        targets::measurable(frame),
        targets::measurable(client),
        call_ensures(targets::target_size, (frame, Some(client)), size),
        call_ensures(targets::target_size, (frame, None::<Rect>), bare),
    ensures
        client.left < client.right && client.top < client.bottom ==> {
            &&& client.left + size.0 == client.right
            &&& client.top + size.1 == client.bottom
        },
        client.left >= client.right || client.top >= client.bottom ==> size == bare,
        frame.left + bare.0 == frame.right,
        frame.top + bare.1 == frame.bottom,
{
}

/// A size is captured where both sides are positive, and is kept as it is.
pub proof fn positive_sizes_are_kept(width: i32, height: i32, size: Option<(u32, u32)>)
    requires
        call_ensures(targets::capture_dimensions, (width, height), size),
    ensures
        size is Some <==> 0 < width && 0 < height,
        size matches Some(kept) ==> kept.0 == width && kept.1 == height,
{
}

/// A process is known by the file behind the last backslash of its path.
pub proof fn process_is_known_by_its_file(folder: Seq<char>, file: Seq<char>)
    requires
        forall|i: int| 0 <= i < file.len() ==> #[trigger] file[i] != '\\',
    ensures
        targets::base_name(file) == file,
        targets::base_name(folder.push('\\') + file) == file,
    decreases file.len(),
{
    let path = folder.push('\\') + file;
    if file.len() == 0 {
        assert(path =~= folder.push('\\'));
        assert(targets::base_name(path) =~= file);
        assert(targets::base_name(file) =~= file);
    } else {
        let rest = file.drop_last();
        assert forall|i: int| 0 <= i < rest.len() implies #[trigger] rest[i] != '\\' by {
            assert(rest[i] == file[i]);
        }
        process_is_known_by_its_file(folder, rest);
        assert(path.drop_last() =~= folder.push('\\') + rest);
        assert(file[file.len() - 1] != '\\');
        assert(path.last() == file.last());
        assert(rest.push(file.last()) =~= file);
    }
}

/// Only a window is asked for a fresh picture, and every window is; the process
/// behind it counts where there is one.
pub proof fn windows_are_asked_to_redraw(hwnd: isize, ask: bool, pid: u32, owner: Option<u32>)
    requires
        call_ensures(targets::request_redraw, (hwnd,), ask),
        call_ensures(targets::pid_for_hwnd, (pid,), owner),
    ensures
        hwnd == 0 ==> !ask,
        hwnd > 0 || hwnd < 0 ==> ask,
        pid == 0 ==> owner is None,
        pid > 0 ==> owner == Some(pid),
{
}

} // verus!
