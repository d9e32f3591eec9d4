use battop::TabBar;

fn bar(n: usize) -> TabBar {
    let titles: Vec<String> = (0..n).map(|i| format!("BAT{}", i)).collect();
    TabBar::new(titles)
}

/// With three tabs and tab 0 selected, one step back wraps to tab 2, and two
/// steps forward from there land on tab 1.
#[test]
fn wrap_backward_then_forward_scenario() {
    let mut tabs = bar(3);
    assert_eq!(tabs.index(), 0);
    tabs.previous();
    assert_eq!(tabs.index(), 2);
    tabs.next();
    tabs.next();
    assert_eq!(tabs.index(), 1);
}

/// Stepping forward once per tab returns the selection to where it started.
#[test]
fn next_full_cycle_returns_to_start() {
    let mut tabs = bar(5);
    tabs.next();
    tabs.next();
    let start = tabs.index();
    for _ in 0..5 {
        tabs.next();
    }
    assert_eq!(tabs.index(), start);
}

/// Stepping backward once per tab returns the selection to where it started.
#[test]
fn previous_full_cycle_returns_to_start() {
    let mut tabs = bar(4);
    tabs.next();
    let start = tabs.index();
    for _ in 0..4 {
        tabs.previous();
    }
    assert_eq!(tabs.index(), start);
}

/// `previous` undoes `next` and `next` undoes `previous` from every index.
#[test]
fn next_and_previous_are_inverses() {
    for start in 0..4 {
        let mut tabs = bar(4);
        for _ in 0..start {
            tabs.next();
        }
        assert_eq!(tabs.index(), start);
        tabs.next();
        tabs.previous();
        assert_eq!(tabs.index(), start);
        tabs.previous();
        tabs.next();
        assert_eq!(tabs.index(), start);
    }
}

/// Forward wrap at the last tab, and the titles stay as given.
#[test]
fn next_wraps_and_titles_kept() {
    let mut tabs = bar(2);
    tabs.next();
    assert_eq!(tabs.index(), 1);
    tabs.next();
    assert_eq!(tabs.index(), 0);
    assert_eq!(tabs.titles().len(), 2);
    assert_eq!(tabs.titles()[0], "BAT0");
    assert_eq!(tabs.titles()[1], "BAT1");
}

/// A single tab: both directions stay at index 0.
#[test]
fn single_tab_never_moves() {
    let mut tabs = bar(1);
    tabs.next();
    assert_eq!(tabs.index(), 0);
    tabs.previous();
    assert_eq!(tabs.index(), 0);
}
