use strdiff::lev_distance::levdist;
use strdiff::lev_distance::LevStrdiff;
use strdiff::lev_distance::Lv;

#[test]
fn test_levdist() {
    let initial = levdist("Hello".to_string(), "Hello".to_string());
    let second = levdist("Hello".to_string(), "Halla".to_string());
    let third = levdist("Abdul Hasan".to_string(), "Abdil Husain".to_string());

    assert_eq!(initial, 0);
    assert_eq!(second, 2);
    assert_eq!(third, 3);
}

#[test]
fn test_levdist_vec() {
    let test = LevStrdiff;
    let args = ("hello".to_string(), "hella".to_string());
    let result = test.entry(args);

    let vargs = (vec!["hello".to_string()], vec!["hal".to_string()]);
    let vresult = test.entry(vargs);

    assert_eq!(result, 1);
    assert_eq!(vresult.unwrap(), vec![3]);
}
