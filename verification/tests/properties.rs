use strdiff::damerau_lev_distance::dameraudist;
use strdiff::damerau_lev_distance::dameraudist_vec;
use strdiff::lev_distance::levdist;
use strdiff::lev_distance::levdist_vec;

#[test]
fn identity_on_concrete_strings() {
    assert_eq!(levdist("kitten".to_string(), "kitten".to_string()), 0);
    assert_eq!(dameraudist("kitten".to_string(), "kitten".to_string()), 0);
    assert_eq!(levdist(String::new(), String::new()), 0);
    assert_eq!(dameraudist(String::new(), String::new()), 0);
}

#[test]
fn symmetry_on_concrete_strings() {
    let a = "Abdul Hasan";
    let b = "Abdil Husain";
    assert_eq!(
        levdist(a.to_string(), b.to_string()),
        levdist(b.to_string(), a.to_string())
    );
    assert_eq!(
        dameraudist(a.to_string(), b.to_string()),
        dameraudist(b.to_string(), a.to_string())
    );
}

#[test]
fn bounds_on_concrete_strings() {
    // 5 and 8 characters: the distance lies between 3 and 8.
    let d = levdist("Hello".to_string(), "geHellio".to_string());
    assert!(3 <= d && d <= 8);
}

#[test]
fn dominance_on_transposed_pair() {
    // A lone adjacent swap: one transposition against two substitutions.
    let plain = levdist("ab".to_string(), "ba".to_string());
    let aligned = dameraudist("ab".to_string(), "ba".to_string());
    assert_eq!(plain, 2);
    assert_eq!(aligned, 1);
    assert!(aligned <= plain);
}

#[test]
fn batch_results_keep_input_order() {
    let sources = vec!["hello".to_string(), "kitten".to_string(), "ab".to_string()];
    let dests = vec!["hella".to_string(), "sitting".to_string(), "ba".to_string()];
    let batch = levdist_vec(sources.clone(), dests.clone());
    assert_eq!(batch.len(), 3);
    for k in 0..3 {
        assert_eq!(batch[k], levdist(sources[k].clone(), dests[k].clone()));
    }
    assert_eq!(batch, vec![1, 3, 2]);

    let dbatch = dameraudist_vec(sources.clone(), dests.clone());
    assert_eq!(dbatch.len(), 3);
    for k in 0..3 {
        assert_eq!(dbatch[k], dameraudist(sources[k].clone(), dests[k].clone()));
    }
    assert_eq!(dbatch, vec![1, 3, 1]);
}

#[test]
fn empty_string_distances() {
    assert_eq!(levdist(String::new(), "abc".to_string()), 3);
    assert_eq!(levdist("abc".to_string(), String::new()), 3);
    assert_eq!(dameraudist(String::new(), "abc".to_string()), 3);
    assert_eq!(dameraudist("abc".to_string(), String::new()), 3);
}

#[test]
fn distances_saturate_at_255() {
    let a = "a".repeat(300);
    let b = "b".repeat(300);
    assert_eq!(levdist(a.clone(), b.clone()), 255);
    assert_eq!(dameraudist(a, b), 255);
}

#[test]
fn helper_tabulates_the_osa_distance() {
    let s: Vec<char> = vec!['a', 'b'];
    let t: Vec<char> = vec!['b', 'a'];
    assert_eq!(strdiff::damerau_lev_distance::helper(&s, &t), 1);
    assert_eq!(strdiff::demerau_lev_distance::helper(&s, &t), 1);
}

#[test]
fn osa_concrete_scenarios() {
    assert_eq!(dameraudist("hello".to_string(), "helo".to_string()), 1);
    assert_eq!(dameraudist("kitten".to_string(), "sitting".to_string()), 3);
}
