use text_adventurers::table::{Column, ColumnAlignment, Table};

#[test]
pub fn columns_are_as_wide_as_their_widest_cell() {
    let table = Table {
        columns: vec![
            Column { name: "Name", alignment: ColumnAlignment::Left },
            Column { name: "N", alignment: ColumnAlignment::Right },
        ],
    };
    let text = table.render(vec![
        vec![String::from("a"), String::from("1000")],
        vec![String::from("longer"), String::from("2")],
    ]);
    assert_eq!(text, "| Name   |    N |\n| a      | 1000 |\n| longer |    2 |\n");
}

#[test]
pub fn a_table_without_rows_is_its_header() {
    let table = Table {
        columns: vec![Column { name: "Only", alignment: ColumnAlignment::Right }],
    };
    assert_eq!(table.render(vec![]), "| Only |\n");
    let empty = Table { columns: vec![] };
    assert_eq!(empty.render(vec![vec![], vec![]]), "|\n|\n|\n");
}

#[test]
pub fn width_is_counted_in_bytes() {
    let table = Table {
        columns: vec![Column { name: "x", alignment: ColumnAlignment::Left }],
    };
    // The cell is two characters and three bytes long.
    assert_eq!(table.render(vec![vec![String::from("é!")]]), "| x   |\n| é! |\n");
}
