use corrupted_clock::table_layout::column_draw_steps;
use corrupted_clock::{AtLeastOne, IsZeroError, ParseNonPosZeroError};

#[test]
fn colum_draw_steps_more_per_row_than_columns() {
    let actual = column_draw_steps(2, Some(AtLeastOne::new(4).unwrap()));
    assert_eq!(vec![2], actual);
}

#[test]
fn colum_draw_steps_more_columns_than_per_row_even() {
    let actual = column_draw_steps(8, Some(AtLeastOne::new(4).unwrap()));
    assert_eq!(vec![4, 4], actual);
}

#[test]
fn colum_draw_steps_more_columns_than_per_row_uneven() {
    let actual = column_draw_steps(10, Some(AtLeastOne::new(4).unwrap()));
    assert_eq!(vec![4, 4, 2], actual);
}

#[test]
fn colum_draw_steps_without_limit_keeps_one_row() {
    let actual = column_draw_steps(8, None);
    assert_eq!(vec![8], actual);
}

#[test]
fn at_least_one_refuses_zero() {
    assert_eq!(Err(IsZeroError), AtLeastOne::new(0));
    assert_eq!(4, AtLeastOne::new(4).unwrap().value());
}

#[test]
fn at_least_one_parses_positive_counts() {
    assert_eq!(3, AtLeastOne::from_str("3").unwrap().value());
    assert_eq!(
        Err(ParseNonPosZeroError::IsZero(IsZeroError)),
        AtLeastOne::from_str("0")
    );
    assert_eq!(
        Err(ParseNonPosZeroError::NoPostiveNumber),
        AtLeastOne::from_str("abc")
    );
    assert_eq!(
        Err(ParseNonPosZeroError::NoPostiveNumber),
        AtLeastOne::from_str("-3")
    );
    assert_eq!(
        Err(ParseNonPosZeroError::NoPostiveNumber),
        AtLeastOne::from_str("99999999999")
    );
}
