use waw::dock::DockPosition;
use waw::layout::DockSelector;
use waw::screen::{drop_message, Screen, ScreenMsg, TaskbarIcon};
use waw::window::{Window, WindowInit};

fn init(title: &str, dock: DockPosition) -> WindowInit {
    WindowInit { title: Some(title.to_string()), icon: None, dock, request_center: None }
}

fn desktop(windows: usize) -> Screen<u32> {
    let mut screen: Screen<u32> = Screen::new(1000, 500);
    for id in 0..windows {
        let made = screen.new_window(init("w", DockPosition::Left), 100 + id as u32);
        assert_eq!(made, id);
    }
    screen
}

fn stacks(screen: &Screen<u32>) -> Vec<Vec<usize>> {
    let all = [
        DockPosition::Top,
        DockPosition::Left,
        DockPosition::Bottom,
        DockPosition::Right,
        DockPosition::Center,
    ];
    all.iter().map(|dock| screen.dock_stack(*dock).clone()).collect()
}

fn docks_of(screen: &Screen<u32>) -> Vec<(Option<DockPosition>, DockPosition)> {
    (0..screen.window_count())
        .map(|id| {
            let window = screen.window(id).unwrap();
            (window.current_dock, window.last_dock)
        })
        .collect()
}

fn assert_exclusive(screen: &Screen<u32>) {
    let all = [
        DockPosition::Top,
        DockPosition::Left,
        DockPosition::Bottom,
        DockPosition::Right,
        DockPosition::Center,
    ];
    for id in 0..screen.window_count() {
        let mut seen: usize = 0;
        for dock in all {
            let here = screen.dock_stack(dock).iter().filter(|entry| **entry == id).count();
            seen += here;
            if here > 0 {
                assert_eq!(screen.window(id).unwrap().current_dock, Some(dock));
            }
        }
        assert!(seen <= 1);
        assert_eq!(seen == 1, screen.window(id).unwrap().current_dock.is_some());
        assert_eq!(seen == 1, screen.is_open(id));
    }
}

#[test]
fn new_desktop_has_no_windows_and_default_dock_sizes() {
    let screen: Screen<u32> = Screen::new(1000, 500);
    assert_eq!(screen.width(), 1000);
    assert_eq!(screen.height(), 500);
    assert_eq!(screen.window_count(), 0);
    assert_eq!(screen.dock_size(DockPosition::Top), Some(50));
    assert_eq!(screen.dock_size(DockPosition::Left), Some(100));
    assert_eq!(screen.dock_size(DockPosition::Bottom), Some(100));
    assert_eq!(screen.dock_size(DockPosition::Right), Some(200));
    assert_eq!(screen.dock_size(DockPosition::Center), None);
    assert_eq!(screen.selector(), None);
    assert_eq!(screen.center_window(), None);
    assert_eq!(stacks(&screen), vec![Vec::<usize>::new(); 5]);
    assert!(screen.taskbar().is_empty());
}

#[test]
fn new_desktop_of_the_largest_container() {
    let screen: Screen<u32> = Screen::new(u32::MAX, u32::MAX);
    assert_eq!(screen.dock_size(DockPosition::Top), Some(429496729));
    assert_eq!(screen.dock_size(DockPosition::Right), Some(858993459));
}

#[test]
fn resize_updates_the_container_only() {
    let mut screen = desktop(2);
    screen.move_window(0, DockPosition::Top);
    let before = stacks(&screen);
    screen.resize(640, 480);
    assert_eq!(screen.width(), 640);
    assert_eq!(screen.height(), 480);
    assert_eq!(stacks(&screen), before);
    assert_eq!(screen.dock_size(DockPosition::Top), Some(50));
    assert_eq!(screen.dock_size(DockPosition::Right), Some(200));
}

#[test]
fn new_window_is_hidden_and_remembers_its_dock() {
    let mut screen: Screen<u32> = Screen::new(1000, 500);
    let first = screen.new_window(
        WindowInit {
            title: Some("Editor".to_string()),
            icon: Some("editor.png".to_string()),
            dock: DockPosition::Bottom,
            request_center: Some(true),
        },
        7,
    );
    let second = screen.new_window(
        WindowInit { title: None, icon: None, dock: DockPosition::Center, request_center: None },
        8,
    );
    assert_eq!(first, 0);
    assert_eq!(second, 1);
    assert_eq!(screen.window_count(), 2);
    let window: &Window<u32> = screen.window(0).unwrap();
    assert_eq!(window.id, 0);
    assert_eq!(window.title, "Editor");
    assert_eq!(window.icon, "editor.png");
    assert_eq!(window.content, 7);
    assert_eq!(window.current_dock, None);
    assert_eq!(window.last_dock, DockPosition::Bottom);
    assert!(!window.is_open());
    let window = screen.window(1).unwrap();
    assert_eq!(window.id, 1);
    assert_eq!(window.title, "");
    assert_eq!(window.icon, "");
    assert_eq!(window.current_dock, None);
    assert_eq!(window.last_dock, DockPosition::Center);
    assert_eq!(stacks(&screen), vec![Vec::<usize>::new(); 5]);
    assert_eq!(screen.center_window(), None);
    assert_eq!(screen.get_window(0), Some(&7));
    assert_eq!(screen.get_window(1), Some(&8));
    assert_eq!(screen.get_window(2), None);
    assert!(screen.window(2).is_none());
}

#[test]
fn move_window_docks_on_top() {
    let mut screen = desktop(3);
    assert!(screen.move_window(0, DockPosition::Top));
    assert!(screen.move_window(1, DockPosition::Top));
    assert_eq!(screen.dock_stack(DockPosition::Top), &vec![0, 1]);
    assert_eq!(screen.window(0).unwrap().current_dock, Some(DockPosition::Top));
    assert_eq!(screen.window(0).unwrap().last_dock, DockPosition::Left);
    assert!(screen.move_window(0, DockPosition::Right));
    assert_eq!(screen.dock_stack(DockPosition::Top), &vec![1]);
    assert_eq!(screen.dock_stack(DockPosition::Right), &vec![0]);
    assert_eq!(screen.window(0).unwrap().current_dock, Some(DockPosition::Right));
    assert_eq!(screen.window(0).unwrap().last_dock, DockPosition::Top);
    assert_exclusive(&screen);
}

#[test]
fn move_window_to_its_own_dock_brings_it_to_the_top() {
    let mut screen = desktop(3);
    screen.move_window(0, DockPosition::Bottom);
    screen.move_window(1, DockPosition::Bottom);
    screen.move_window(2, DockPosition::Bottom);
    assert_eq!(screen.dock_stack(DockPosition::Bottom), &vec![0, 1, 2]);
    assert!(screen.move_window(1, DockPosition::Bottom));
    assert_eq!(screen.dock_stack(DockPosition::Bottom), &vec![0, 2, 1]);
    assert_eq!(screen.window(1).unwrap().current_dock, Some(DockPosition::Bottom));
    assert_eq!(screen.window(1).unwrap().last_dock, DockPosition::Bottom);
    assert_exclusive(&screen);
}

#[test]
fn move_window_closes_the_selector() {
    let mut screen = desktop(2);
    assert!(screen.open_selector(1, 30, 40));
    assert!(screen.move_window(0, DockPosition::Top));
    assert_eq!(screen.selector(), None);
}

#[test]
fn move_of_unknown_id_changes_nothing() {
    let mut screen = desktop(2);
    screen.move_window(0, DockPosition::Left);
    screen.open_selector(1, 3, 4);
    let stacks_before = stacks(&screen);
    let docks_before = docks_of(&screen);
    assert!(!screen.move_window(9999, DockPosition::Top));
    assert_eq!(stacks(&screen), stacks_before);
    assert_eq!(docks_of(&screen), docks_before);
    assert_eq!(screen.window_count(), 2);
    assert_eq!(screen.selector(), Some(DockSelector { window: 1, x: 3, y: 4 }));
    assert!(!screen.move_window(2, DockPosition::Top));
    assert!(!screen.move_window(usize::MAX, DockPosition::Center));
    assert_eq!(stacks(&screen), stacks_before);
}

#[test]
fn toggle_of_unknown_id_changes_nothing() {
    let mut screen = desktop(2);
    screen.move_window(1, DockPosition::Center);
    let stacks_before = stacks(&screen);
    let docks_before = docks_of(&screen);
    assert!(!screen.toggle_window(2));
    assert!(!screen.toggle_window(9999));
    assert_eq!(stacks(&screen), stacks_before);
    assert_eq!(docks_of(&screen), docks_before);
}

#[test]
fn toggle_shows_a_new_window_in_its_dock() {
    let mut screen: Screen<u32> = Screen::new(100, 100);
    screen.new_window(init("a", DockPosition::Right), 0);
    assert!(screen.toggle_window(0));
    assert_eq!(screen.window(0).unwrap().current_dock, Some(DockPosition::Right));
    assert_eq!(screen.dock_stack(DockPosition::Right), &vec![0]);
    assert!(screen.is_open(0));
}

#[test]
fn toggle_twice_returns_to_the_same_dock() {
    for dock in [
        DockPosition::Top,
        DockPosition::Left,
        DockPosition::Bottom,
        DockPosition::Right,
        DockPosition::Center,
    ] {
        let mut screen = desktop(3);
        screen.move_window(1, dock);
        screen.move_window(2, dock);
        screen.move_window(0, DockPosition::Top);
        assert!(screen.toggle_window(1));
        assert_eq!(screen.window(1).unwrap().current_dock, None);
        assert_eq!(screen.window(1).unwrap().last_dock, dock);
        assert!(!screen.dock_stack(dock).contains(&1));
        assert!(!screen.is_open(1));
        assert_exclusive(&screen);
        assert!(screen.toggle_window(1));
        assert_eq!(screen.window(1).unwrap().current_dock, Some(dock));
        assert_eq!(screen.dock_stack(dock).last(), Some(&1));
        assert_exclusive(&screen);
    }
}

#[test]
fn toggle_leaves_the_selector_open() {
    let mut screen = desktop(1);
    screen.open_selector(0, 1, 2);
    screen.toggle_window(0);
    assert_eq!(screen.selector(), Some(DockSelector { window: 0, x: 1, y: 2 }));
}

#[test]
fn center_shows_only_the_topmost() {
    let mut screen = desktop(3);
    screen.move_window(0, DockPosition::Center);
    assert_eq!(screen.center_window(), Some(0));
    screen.move_window(1, DockPosition::Center);
    assert_eq!(screen.center_window(), Some(1));
    assert_eq!(screen.dock_stack(DockPosition::Center), &vec![0, 1]);
    assert_eq!(screen.window(0).unwrap().current_dock, Some(DockPosition::Center));
    assert!(screen.toggle_window(1));
    assert_eq!(screen.center_window(), Some(0));
    assert!(screen.toggle_window(1));
    assert_eq!(screen.center_window(), Some(1));
    assert!(screen.move_window(1, DockPosition::Left));
    assert_eq!(screen.center_window(), Some(0));
    assert!(screen.toggle_window(0));
    assert_eq!(screen.center_window(), None);
}

#[test]
fn docking_stays_exclusive_over_many_commands() {
    let mut screen = desktop(6);
    let docks = [
        DockPosition::Top,
        DockPosition::Left,
        DockPosition::Bottom,
        DockPosition::Right,
        DockPosition::Center,
    ];
    let mut seed: u64 = 0x2545F4914F6CDD1D;
    for _ in 0..2000 {
        seed ^= seed << 13;
        seed ^= seed >> 7;
        seed ^= seed << 17;
        let id = (seed % 8) as usize;
        let dock = docks[((seed >> 8) % 5) as usize];
        if (seed >> 16) % 2 == 0 {
            assert_eq!(screen.move_window(id, dock), id < 6);
        } else {
            assert_eq!(screen.toggle_window(id), id < 6);
        }
        assert_exclusive(&screen);
    }
}

#[test]
fn resize_dock_follows_the_handle() {
    let mut screen: Screen<u32> = Screen::new(1000, 500);
    assert!(screen.resize_dock(DockPosition::Top, 7, 10));
    assert_eq!(screen.dock_size(DockPosition::Top), Some(60));
    assert!(screen.resize_dock(DockPosition::Left, 10, 7));
    assert_eq!(screen.dock_size(DockPosition::Left), Some(110));
    assert!(screen.resize_dock(DockPosition::Bottom, 7, 10));
    assert_eq!(screen.dock_size(DockPosition::Bottom), Some(90));
    assert!(screen.resize_dock(DockPosition::Right, 10, 7));
    assert_eq!(screen.dock_size(DockPosition::Right), Some(190));
    assert!(screen.resize_dock(DockPosition::Bottom, 0, -15));
    assert_eq!(screen.dock_size(DockPosition::Bottom), Some(105));
    assert!(screen.resize_dock(DockPosition::Right, -15, 0));
    assert_eq!(screen.dock_size(DockPosition::Right), Some(205));
    assert_eq!(screen.dock_size(DockPosition::Top), Some(60));
    assert_eq!(screen.dock_size(DockPosition::Left), Some(110));
}

#[test]
fn resize_dock_never_goes_below_zero() {
    let mut screen: Screen<u32> = Screen::new(1000, 500);
    for _ in 0..50 {
        assert!(screen.resize_dock(DockPosition::Left, -1_000_000_000, 0));
        assert_eq!(screen.dock_size(DockPosition::Left), Some(0));
    }
    assert!(screen.resize_dock(DockPosition::Left, 5, 0));
    assert_eq!(screen.dock_size(DockPosition::Left), Some(5));
    assert!(screen.resize_dock(DockPosition::Bottom, 0, i64::MAX));
    assert_eq!(screen.dock_size(DockPosition::Bottom), Some(0));
    assert!(screen.resize_dock(DockPosition::Top, 0, i64::MIN));
    assert_eq!(screen.dock_size(DockPosition::Top), Some(0));
    assert_eq!(screen.dock_size(DockPosition::Right), Some(200));
}

#[test]
fn resize_of_the_center_changes_nothing() {
    let mut screen: Screen<u32> = Screen::new(1000, 500);
    assert!(screen.can_resize_dock(DockPosition::Center, i64::MAX, i64::MAX));
    assert!(!screen.resize_dock(DockPosition::Center, 50, 50));
    assert_eq!(screen.dock_size(DockPosition::Top), Some(50));
    assert_eq!(screen.dock_size(DockPosition::Left), Some(100));
    assert_eq!(screen.dock_size(DockPosition::Bottom), Some(100));
    assert_eq!(screen.dock_size(DockPosition::Right), Some(200));
}

#[test]
fn can_resize_dock_tells_what_can_be_stored() {
    let mut screen: Screen<u32> = Screen::new(1000, 500);
    let room: i64 = i32::MAX as i64 - 100;
    assert!(screen.can_resize_dock(DockPosition::Left, room, 0));
    assert!(!screen.can_resize_dock(DockPosition::Left, room + 1, 0));
    assert!(screen.can_resize_dock(DockPosition::Left, i64::MIN, 0));
    assert!(!screen.can_resize_dock(DockPosition::Left, i64::MAX, 0));
    assert!(screen.can_resize_dock(DockPosition::Right, i64::MAX, 0));
    assert!(!screen.can_resize_dock(DockPosition::Right, i64::MIN, 0));
    assert!(screen.can_resize_dock(DockPosition::Left, 0, i64::MAX));
    assert!(screen.resize_dock(DockPosition::Left, room, 0));
    assert_eq!(screen.dock_size(DockPosition::Left), Some(i32::MAX));
    assert!(!screen.can_resize_dock(DockPosition::Left, 1, 0));
    assert!(screen.can_resize_dock(DockPosition::Left, 0, 0));
}

#[test]
fn selector_is_one_at_most() {
    let mut screen = desktop(2);
    assert_eq!(screen.selector(), None);
    assert!(screen.open_selector(0, 10, 20));
    assert_eq!(screen.selector(), Some(DockSelector { window: 0, x: 10, y: 20 }));
    assert!(screen.open_selector(1, -5, 7));
    assert_eq!(screen.selector(), Some(DockSelector { window: 1, x: -5, y: 7 }));
    assert!(!screen.open_selector(2, 1, 1));
    assert_eq!(screen.selector(), Some(DockSelector { window: 1, x: -5, y: 7 }));
    screen.close_selector();
    assert_eq!(screen.selector(), None);
    screen.close_selector();
    assert_eq!(screen.selector(), None);
}

#[test]
fn empty_docks_collapse() {
    let mut screen = desktop(2);
    for dock in DockPosition::array() {
        assert!(!screen.dock_visible(dock));
    }
    assert_eq!(screen.visible_dock_sizes(), [0, 0, 0, 0]);
    screen.move_window(0, DockPosition::Left);
    screen.move_window(1, DockPosition::Bottom);
    assert!(screen.dock_visible(DockPosition::Left));
    assert!(screen.dock_visible(DockPosition::Bottom));
    assert!(!screen.dock_visible(DockPosition::Top));
    assert!(!screen.dock_visible(DockPosition::Center));
    assert_eq!(screen.visible_dock_sizes(), [0, 100, 100, 0]);
    screen.toggle_window(0);
    assert_eq!(screen.visible_dock_sizes(), [0, 0, 100, 0]);
    assert_eq!(screen.dock_size(DockPosition::Left), Some(100));
    screen.move_window(1, DockPosition::Center);
    assert!(screen.dock_visible(DockPosition::Center));
    assert_eq!(screen.visible_dock_sizes(), [0, 0, 0, 0]);
}

#[test]
fn taskbar_lists_every_window() {
    let mut screen = desktop(3);
    screen.move_window(1, DockPosition::Center);
    assert_eq!(
        screen.taskbar(),
        vec![
            TaskbarIcon { id: 0, open: false },
            TaskbarIcon { id: 1, open: true },
            TaskbarIcon { id: 2, open: false },
        ]
    );
    screen.toggle_window(1);
    screen.toggle_window(2);
    assert_eq!(
        screen.taskbar(),
        vec![
            TaskbarIcon { id: 0, open: false },
            TaskbarIcon { id: 1, open: false },
            TaskbarIcon { id: 2, open: true },
        ]
    );
}

#[test]
fn malformed_drop_is_ignored() {
    let mut screen = desktop(2);
    screen.move_window(0, DockPosition::Left);
    screen.open_selector(1, 3, 4);
    let stacks_before = stacks(&screen);
    let docks_before = docks_of(&screen);
    assert!(!screen.handle_drop(Some("abc"), DockPosition::Top));
    assert!(!screen.handle_drop(None, DockPosition::Top));
    assert!(!screen.handle_drop(Some(""), DockPosition::Top));
    assert!(!screen.handle_drop(Some("-1"), DockPosition::Top));
    assert!(!screen.handle_drop(Some("7"), DockPosition::Top));
    assert_eq!(stacks(&screen), stacks_before);
    assert_eq!(docks_of(&screen), docks_before);
    assert_eq!(screen.selector(), Some(DockSelector { window: 1, x: 3, y: 4 }));
}

#[test]
fn drop_moves_the_window_to_the_zone() {
    let mut screen = desktop(2);
    screen.move_window(1, DockPosition::Left);
    assert!(screen.handle_drop(Some("1"), DockPosition::Center));
    assert_eq!(screen.window(1).unwrap().current_dock, Some(DockPosition::Center));
    assert_eq!(screen.center_window(), Some(1));
    assert_eq!(screen.dock_stack(DockPosition::Left), &Vec::<usize>::new());
    assert!(screen.handle_drop(Some("0"), DockPosition::Top));
    assert_eq!(screen.dock_stack(DockPosition::Top), &vec![0]);
}

#[test]
fn drop_message_names_the_move() {
    let msg: Option<ScreenMsg<u32>> = drop_message(Some("12"), DockPosition::Right);
    assert!(matches!(msg, Some(ScreenMsg::MoveWindow(12, DockPosition::Right))));
    let msg: Option<ScreenMsg<u32>> = drop_message(Some("abc"), DockPosition::Right);
    assert!(msg.is_none());
    let msg: Option<ScreenMsg<u32>> = drop_message(None, DockPosition::Right);
    assert!(msg.is_none());
}

#[test]
fn update_carries_out_each_command() {
    let mut screen: Screen<u32> = Screen::new(10, 10);
    assert!(screen.update(ScreenMsg::Resize(1000, 500)));
    assert_eq!((screen.width(), screen.height()), (1000, 500));
    assert!(screen.update(ScreenMsg::NewWindow(init("a", DockPosition::Top), 1)));
    assert!(screen.update(ScreenMsg::NewWindow(init("b", DockPosition::Left), 2)));
    assert_eq!(screen.window_count(), 2);
    assert!(screen.update(ScreenMsg::ToggleWindow(0)));
    assert_eq!(screen.dock_stack(DockPosition::Top), &vec![0]);
    assert!(screen.update(ScreenMsg::MoveWindow(1, DockPosition::Top)));
    assert_eq!(screen.dock_stack(DockPosition::Top), &vec![0, 1]);
    assert!(screen.update(ScreenMsg::OpenSelector(1, 5, 6)));
    assert_eq!(screen.selector(), Some(DockSelector { window: 1, x: 5, y: 6 }));
    assert!(screen.update(ScreenMsg::CloseSelector));
    assert_eq!(screen.selector(), None);
    assert!(screen.update(ScreenMsg::ResizeDock(DockPosition::Top, 0, 9)));
    assert_eq!(screen.dock_size(DockPosition::Top), Some(10));
    assert!(!screen.update(ScreenMsg::ResizeDock(DockPosition::Center, 1, 1)));
    assert!(!screen.update(ScreenMsg::MoveWindow(2, DockPosition::Top)));
    assert!(!screen.update(ScreenMsg::ToggleWindow(2)));
    assert!(!screen.update(ScreenMsg::OpenSelector(2, 0, 0)));
    assert_eq!(screen.dock_stack(DockPosition::Top), &vec![0, 1]);
    assert_eq!(screen.selector(), None);
}

#[test]
fn can_apply_refuses_only_what_cannot_be_stored() {
    let screen = desktop(1);
    assert!(screen.can_apply(&ScreenMsg::Resize(1, 1)));
    assert!(screen.can_apply(&ScreenMsg::MoveWindow(99, DockPosition::Top)));
    assert!(screen.can_apply(&ScreenMsg::ToggleWindow(99)));
    assert!(screen.can_apply(&ScreenMsg::CloseSelector));
    assert!(screen.can_apply(&ScreenMsg::ResizeDock(DockPosition::Top, 0, 100)));
    assert!(!screen.can_apply(&ScreenMsg::ResizeDock(DockPosition::Top, 0, i64::MAX)));
    assert!(screen.can_apply(&ScreenMsg::ResizeDock(DockPosition::Bottom, 0, i64::MAX)));
}
