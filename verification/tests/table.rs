use flow_table::{Child, Columns, FlowTable, FlowTableData};

fn at(id: u64, x: i32, y: i32, w: i32, h: i32) -> Child {
    Child { id, x, y, w, h }
}

#[test]
fn a_new_table_holds_its_proxy_only() {
    let table = FlowTable::new(1, 2, 3, 4, "flow");
    assert_eq!((table.x(), table.y(), table.w(), table.h()), (1, 2, 3, 4));
    assert_eq!(table.label(), Some("flow"));
    assert_eq!(table.data(), FlowTableData::default());
    assert_eq!(*table.children(), vec![at(0, 0, 0, 0, 0)]);
    assert!(!table.is_ended());
}

#[test]
fn a_table_needs_no_label() {
    let table = FlowTable::new(1, 2, 3, 4, None);
    assert_eq!(table.label(), None);
    let table = FlowTable::labelled(1, 2, 3, 4, Some("named"));
    assert_eq!(table.label(), Some("named"));
    assert_eq!((table.x(), table.y(), table.w(), table.h()), (1, 2, 3, 4));
    assert_eq!(*table.children(), vec![at(0, 0, 0, 0, 0)]);
}

#[test]
fn the_default_table_is_empty_at_the_origin() {
    let table = FlowTable::default();
    assert_eq!((table.x(), table.y(), table.w(), table.h()), (0, 0, 0, 0));
    assert_eq!(table.label(), None);
    assert_eq!(table.data(), FlowTableData::default());
    assert_eq!(*table.children(), vec![at(0, 0, 0, 0, 0)]);
    assert!(!table.is_ended());
}

#[test]
fn builders_set_their_fields_and_no_other() {
    let table = FlowTable::new(0, 0, 100, 100, None).with_padding(1, 2, 3, 4);
    assert_eq!(
        table.data(),
        FlowTableData { padding_top: 1, padding_right: 2, padding_bottom: 3, padding_left: 4, ..FlowTableData::default() }
    );
    let table = table.with_spacing(5, 6);
    assert_eq!(
        table.data(),
        FlowTableData {
            padding_top: 1,
            padding_right: 2,
            padding_bottom: 3,
            padding_left: 4,
            spacing_horizontal: 5,
            spacing_vertical: 6,
            min_column_width: 0,
        }
    );
    let table = table.with_min_column_width(7);
    assert_eq!(
        table.data(),
        FlowTableData {
            padding_top: 1,
            padding_right: 2,
            padding_bottom: 3,
            padding_left: 4,
            spacing_horizontal: 5,
            spacing_vertical: 6,
            min_column_width: 7,
        }
    );
    let table = table.with_padding(0, 0, 0, 9).with_spacing(8, 8);
    assert_eq!(
        table.data(),
        FlowTableData {
            padding_top: 0,
            padding_right: 0,
            padding_bottom: 0,
            padding_left: 9,
            spacing_horizontal: 8,
            spacing_vertical: 8,
            min_column_width: 7,
        }
    );
    assert_eq!((table.x(), table.y(), table.w(), table.h()), (0, 0, 100, 100));
    assert_eq!(*table.children(), vec![at(0, 0, 0, 0, 0)]);
}

#[test]
fn children_are_numbered_as_they_come() {
    let mut table = FlowTable::new(0, 0, 100, 100, None);
    assert_eq!(table.add(1, 2, 3, 4), Some(1));
    assert_eq!(table.add(5, 6, 7, 8), Some(2));
    assert_eq!(*table.children(), vec![at(0, 0, 0, 0, 0), at(1, 1, 2, 3, 4), at(2, 5, 6, 7, 8)]);
}

#[test]
fn width_310_gives_two_columns_and_a_second_row() {
    let mut table =
        FlowTable::new(0, 0, 310, 0, None).with_spacing(10, 7).with_min_column_width(100);
    assert_eq!(table.data().columns(310), Some(Columns { count: 2, width: 150 }));
    table.add(0, 0, 40, 20);
    table.add(0, 0, 40, 20);
    table.add(0, 0, 40, 20);
    assert!(table.can_resize(table.x(), table.y(), table.w()));
    table.end();
    assert!(table.is_ended());
    assert_eq!(
        *table.children(),
        vec![
            at(0, 0, 0, 310, 47),
            at(1, 0, 0, 150, 20),
            at(2, 160, 0, 150, 20),
            at(3, 0, 27, 150, 20),
        ]
    );
    assert_eq!((table.x(), table.y(), table.w(), table.h()), (0, 0, 310, 47));
}

#[test]
fn without_a_minimum_width_children_stack() {
    let mut table = FlowTable::new(0, 0, 200, 500, None).with_spacing(10, 4);
    for h in [10, 20, 30, 40] {
        table.add(0, 0, 200, h);
    }
    table.end();
    assert_eq!(
        *table.children(),
        vec![
            at(0, 0, 0, 200, 112),
            at(1, 0, 0, 200, 10),
            at(2, 0, 14, 200, 20),
            at(3, 0, 38, 200, 30),
            at(4, 0, 72, 200, 40),
        ]
    );
    assert_eq!((table.w(), table.h()), (200, 112));
}

#[test]
fn a_wide_child_stays_in_the_first_row_and_the_table_grows_to_it() {
    let mut table = FlowTable::new(0, 0, 100, 10, None);
    table.add(70, 70, 500, 40);
    table.end();
    assert_eq!(*table.children(), vec![at(0, 0, 0, 100, 40), at(1, 0, 0, 500, 40)]);
    assert_eq!((table.x(), table.y(), table.w(), table.h()), (0, 0, 100, 40));

    let mut table = FlowTable::new(0, 0, 100, 10, None).with_padding(3, 4, 5, 6);
    table.add(70, 70, 500, 40);
    table.end();
    assert_eq!(*table.children(), vec![at(0, 0, 0, 100, 48), at(1, 6, 3, 500, 40)]);
    assert_eq!((table.w(), table.h()), (100, 48));
}

#[test]
fn an_ended_table_takes_no_child() {
    let mut table = FlowTable::new(0, 0, 100, 100, None);
    assert_eq!(table.add(0, 0, 10, 10), Some(1));
    table.end();
    let before = table.children().clone();
    assert_eq!(table.add(0, 0, 10, 10), None);
    assert_eq!(*table.children(), before);
    assert!(table.is_ended());
}

#[test]
fn resize_tells_whether_the_table_took_another_size() {
    let mut table = FlowTable::new(0, 0, 100, 100, None).with_min_column_width(40);
    table.add(0, 0, 1, 30);
    table.add(0, 0, 1, 30);
    table.add(0, 0, 1, 30);
    assert!(table.resize(5, 6, 100, 100));
    assert_eq!((table.x(), table.y(), table.w(), table.h()), (5, 6, 100, 60));
    assert!(!table.resize(5, 6, 100, 60));
    assert_eq!((table.x(), table.y(), table.w(), table.h()), (5, 6, 100, 60));
    assert!(table.resize(5, 6, 130, 60));
    assert_eq!((table.x(), table.y(), table.w(), table.h()), (5, 6, 130, 30));
    assert_eq!(
        *table.children(),
        vec![at(0, 5, 6, 130, 30), at(1, 5, 6, 43, 30), at(2, 48, 6, 43, 30), at(3, 91, 6, 43, 30)]
    );
}

#[test]
fn resizing_again_changes_nothing() {
    let mut table = FlowTable::new(0, 0, 0, 0, None)
        .with_padding(2, 3, 4, 5)
        .with_spacing(6, 7)
        .with_min_column_width(50);
    for k in 0..17 {
        table.add(k, k, 10 * k, 5 + k % 4);
    }
    for w in [0, 60, 128, 500] {
        table.resize(11, 12, w, 1);
        let children = table.children().clone();
        let bounds = (table.x(), table.y(), table.w(), table.h());
        assert!(table.resize(11, 12, w, 1));
        assert_eq!(*table.children(), children);
        assert_eq!((table.x(), table.y(), table.w(), table.h()), bounds);
        assert!(!table.resize(bounds.0, bounds.1, bounds.2, bounds.3));
        assert_eq!(*table.children(), children);
        assert_eq!((table.x(), table.y(), table.w(), table.h()), bounds);
    }
}

#[test]
fn the_proxy_is_never_laid_out() {
    let mut table = FlowTable::new(0, 0, 90, 0, None).with_min_column_width(30);
    table.add(0, 0, 0, 10);
    table.resize(0, 0, 90, 0);
    assert_eq!(*table.children(), vec![at(0, 0, 0, 90, 10), at(1, 0, 0, 30, 10)]);
    table.add(0, 0, 0, 10);
    table.resize(7, 8, 90, 0);
    assert_eq!(
        *table.children(),
        vec![at(0, 7, 8, 90, 10), at(1, 7, 8, 30, 10), at(2, 37, 8, 30, 10)]
    );
}

#[test]
fn a_table_that_cannot_be_laid_out_says_so() {
    let mut table = FlowTable::new(i32::MAX, 0, 100, 100, None).with_padding(0, 0, 0, 1);
    assert!(table.can_resize(i32::MAX, 0, 100));
    table.add(0, 0, 10, 10);
    assert!(!table.can_resize(i32::MAX, 0, 100));
    assert!(table.can_resize(i32::MAX - 1, 0, 100));
}

#[test]
fn configuration_set_late_is_the_one_that_counts() {
    let mut table = FlowTable::new(0, 0, 300, 0, None).with_min_column_width(100);
    table.add(0, 0, 0, 10);
    table.add(0, 0, 0, 10);
    table.resize(0, 0, 300, 0);
    assert_eq!(table.children()[2], at(2, 100, 0, 100, 10));
    let mut table = table.with_min_column_width(150).with_spacing(20, 0);
    table.resize(0, 0, 300, 0);
    assert_eq!(table.children()[1], at(1, 0, 0, 300, 10));
    assert_eq!(table.children()[2], at(2, 0, 10, 300, 10));
}

#[test]
fn a_new_child_is_laid_out_on_request() {
    let mut table = FlowTable::new(4, 5, 100, 0, None).with_min_column_width(50);
    table.add(0, 0, 0, 10);
    assert!(table.relayout());
    assert_eq!(*table.children(), vec![at(0, 4, 5, 100, 10), at(1, 4, 5, 50, 10)]);
    table.add(0, 0, 0, 30);
    assert_eq!(table.children()[2], at(2, 0, 0, 0, 30));
    assert!(table.relayout());
    assert_eq!(
        *table.children(),
        vec![at(0, 4, 5, 100, 30), at(1, 4, 5, 50, 10), at(2, 54, 5, 50, 30)]
    );
    assert!(!table.relayout());
    assert_eq!((table.x(), table.y(), table.w(), table.h()), (4, 5, 100, 30));
    assert!(!table.is_ended());
}
