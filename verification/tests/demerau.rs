use strdiff::demerau_lev_distance::demeraudist;
use strdiff::demerau_lev_distance::DemerauStrdiff;
use strdiff::demerau_lev_distance::Dlv;

#[test]
fn test_demeraudist() {
    let initial = demeraudist("Hello".to_string(), "geHellio".to_string());
    let second = demeraudist("Hello".to_string(), "Halla".to_string());
    let third = demeraudist("Abdul Hasan".to_string(), "Abdil Husain".to_string());

    assert_eq!(initial, 3);
    assert_eq!(second, 2);
    assert_eq!(third, 3);
}

#[test]
fn mod_test_dlv() {
    let entry_struct = DemerauStrdiff;
    let values = ("Zedicus Zul".to_string(), "Zedicus zUL".to_string());
    let result_str = entry_struct.entry(values);

    let values_vec = (
        vec!["Zedicus".to_string(), "Xander".to_string()],
        vec!["zeDIcsu".to_string(), "xanred".to_string()],
    );
    let result_vec = entry_struct.entry(values_vec);

    assert_eq!(result_str, 3);
    assert_eq!(result_vec, vec![4, 3]);
}
