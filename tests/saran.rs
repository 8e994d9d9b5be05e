use minirustcli::saran::{hitung_jarak_levenshtein, saran_dari_huruf_kecil, saran_satuan};

#[test]
fn levenshtein_known_values() {
    assert_eq!(hitung_jarak_levenshtein("kitten", "sitting"), 3);
    assert_eq!(hitung_jarak_levenshtein("", "abc"), 3);
    assert_eq!(hitung_jarak_levenshtein("abc", ""), 3);
    assert_eq!(hitung_jarak_levenshtein("", ""), 0);
    assert_eq!(hitung_jarak_levenshtein("abc", "abc"), 0);
    assert_eq!(hitung_jarak_levenshtein("flaw", "lawn"), 2);
    assert_eq!(hitung_jarak_levenshtein("celcius", "celsius"), 1);
}

#[test]
fn levenshtein_counts_characters_not_bytes() {
    assert_eq!(hitung_jarak_levenshtein("°c", "c"), 1);
    assert_eq!(hitung_jarak_levenshtein("°", "x"), 1);
}

#[test]
fn suggests_celsius_for_celcius() {
    assert_eq!(saran_satuan("celcius"), Some("celsius".to_string()));
    assert_eq!(saran_satuan("CELCIUS"), Some("celsius".to_string()));
}

#[test]
fn no_suggestion_when_everything_is_far() {
    assert_eq!(saran_satuan("xyz123"), None);
    assert_eq!(saran_dari_huruf_kecil("xyz123"), None);
}

#[test]
fn first_nearest_candidate_wins() {
    assert_eq!(saran_satuan("mm"), Some("cm".to_string()));
    assert_eq!(saran_satuan("kgg"), Some("kg".to_string()));
}

#[test]
fn symbols_are_candidates_without_degree_sign() {
    assert_eq!(saran_satuan("gr"), Some("gram".to_string()));
    assert_eq!(saran_satuan("°c"), Some("celsius".to_string()));
}

#[test]
fn distance_three_still_qualifies() {
    assert_eq!(saran_satuan("xyzkg"), Some("kg".to_string()));
}
