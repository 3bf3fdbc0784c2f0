use strdiff::damerau_lev_distance::dameraudist;
use strdiff::damerau_lev_distance::DamerauStrdiff;
use strdiff::damerau_lev_distance::Dlv;

#[test]
fn test_dameraudist() {
    let initial = dameraudist("Hello".to_string(), "geHellio".to_string());
    let second = dameraudist("Hello".to_string(), "Halla".to_string());
    let third = dameraudist("Abdul Hasan".to_string(), "Abdil Husain".to_string());

    assert_eq!(initial, 3);
    assert_eq!(second, 2);
    assert_eq!(third, 3);
}

#[test]
fn test_dlv() {
    let entry_struct = DamerauStrdiff;
    let values = ("Zedicus Zul".to_string(), "Zedicus zUL".to_string());
    let result_str = entry_struct.entry(values);

    let values_vec = (
        vec!["Zedicus".to_string(), "Xander".to_string()],
        vec!["zeDIcsu".to_string(), "xanred".to_string()],
    );
    let result_vec = entry_struct.entry(values_vec);

    assert_eq!(result_str, 3);
    assert_eq!(result_vec, vec![4, 3]);
}

#[test]
fn test_dameraudist_same_string() {
    let source = String::from("hello");
    let dest = String::from("hello");
    assert_eq!(dameraudist(source, dest), 0);
}

#[test]
fn test_dameraudist_one_insertion() {
    let source = String::from("hello");
    let dest = String::from("helo");
    assert_eq!(dameraudist(source, dest), 1);
}

#[test]
fn test_dameraudist_one_deletion() {
    let source = String::from("hello");
    let dest = String::from("helo");
    assert_eq!(dameraudist(dest, source), 1);
}

#[test]
fn test_dameraudist_one_substitution() {
    let source = String::from("hello");
    let dest = String::from("hallo");
    assert_eq!(dameraudist(source, dest), 1);
}

#[test]
fn test_dameraudist_multiple_operations() {
    let source = String::from("kitten");
    let dest = String::from("sitting");
    assert_eq!(dameraudist(source, dest), 3);
}
