use minirustcli::keluaran::{baris_hasil, baris_riwayat, satuan_lain, simbol_atau_teks};
use minirustcli::models::Satuan;
use minirustcli::riwayat::{susun_riwayat, BacaanRiwayat};

#[derive(Clone, Debug, PartialEq)]
struct Catatan {
    asal: &'static str,
    tujuan: &'static str,
    masukan: &'static str,
    keluaran: Option<&'static str>,
    pesan_error: Option<&'static str>,
}

fn baris(daftar: &[Catatan]) -> Vec<String> {
    let mut r = Vec::new();
    for (i, c) in daftar.iter().enumerate() {
        let nomor = format!("{}", i + 1);
        if let Some(b) = baris_riwayat(&nomor, c.masukan, c.asal, c.tujuan, c.keluaran, c.pesan_error) {
            r.push(b);
        }
    }
    r
}

#[test]
fn other_units_of_the_category() {
    assert_eq!(satuan_lain(Satuan::Celsius, Satuan::Fahrenheit), vec![Satuan::Kelvin]);
    assert_eq!(satuan_lain(Satuan::Cm, Satuan::Cm), vec![Satuan::Inch, Satuan::Km, Satuan::Miles]);
    assert_eq!(satuan_lain(Satuan::GB, Satuan::Byte), vec![Satuan::KB, Satuan::MB]);
}

#[test]
fn result_line_with_and_without_equivalents() {
    assert_eq!(
        baris_hasil("0", Satuan::Celsius, "32", Satuan::Fahrenheit, &vec!["273.15".to_string()], &vec![Satuan::Kelvin]),
        "0 °C = 32 °F (273.15 K)"
    );
    assert_eq!(
        baris_hasil(
            "1",
            Satuan::Kg,
            "1000",
            Satuan::Gram,
            &vec!["2.2".to_string(), "35.3".to_string()],
            &vec![Satuan::Lbs, Satuan::Ounce]
        ),
        "1 kg = 1000 g (2.2 lbs, 35.3 oz)"
    );
    assert_eq!(baris_hasil("5", Satuan::Ms, "5", Satuan::Ms, &vec![], &vec![]), "5 m/s = 5 m/s");
}

#[test]
fn stored_unit_text_shown_by_symbol() {
    assert_eq!(simbol_atau_teks("celsius"), "°C");
    assert_eq!(simbol_atau_teks("KM"), "km");
    assert_eq!(simbol_atau_teks("foo"), "foo");
}

#[test]
fn history_lines() {
    assert_eq!(
        baris_riwayat("1", "0", "celsius", "fahrenheit", Some("32"), None),
        Some("1. 0 °C = 32 °F".to_string())
    );
    assert_eq!(
        baris_riwayat("2", "1", "celsius", "kg", None, Some("gagal")),
        Some("2. [GAGAL] 1 celsius -> kg (Error: gagal)".to_string())
    );
    assert_eq!(
        baris_riwayat("3", "1", "foo", "KM", Some("2"), None),
        Some("3. 1 foo = 2 km".to_string())
    );
    assert_eq!(baris_riwayat("4", "1", "a", "b", None, None), None);
}

#[test]
fn one_success_then_one_failure_lists_two_entries_in_order() {
    let sukses = Catatan {
        asal: "celsius",
        tujuan: "fahrenheit",
        masukan: "0",
        keluaran: Some("32"),
        pesan_error: None,
    };
    let gagal = Catatan {
        asal: "celsius",
        tujuan: "kg",
        masukan: "1",
        keluaran: None,
        pesan_error: Some("Tidak dapat mengonversi satuan yang berbeda kategori: [suhu] celsius -> [berat] kg"),
    };
    let pertama = susun_riwayat(BacaanRiwayat::TidakAda, sukses.clone());
    assert!(!pertama.cadangkan);
    let kedua = susun_riwayat(BacaanRiwayat::Terbaca(pertama.daftar), gagal.clone());
    assert!(!kedua.cadangkan);
    assert_eq!(kedua.daftar, vec![sukses, gagal]);
    let b = baris(&kedua.daftar);
    assert_eq!(b.len(), 2);
    assert_eq!(b[0], "1. 0 °C = 32 °F");
    assert!(b[1].starts_with("2. [GAGAL] 1 celsius -> kg"));
}

#[test]
fn corrupt_history_is_backed_up_and_restarted() {
    let r = susun_riwayat(BacaanRiwayat::Rusak, 7u32);
    assert!(r.cadangkan);
    assert_eq!(r.daftar, vec![7u32]);
}

#[test]
fn unreadable_or_missing_history_counts_as_empty() {
    let r = susun_riwayat(BacaanRiwayat::GagalBuka, 1u32);
    assert!(!r.cadangkan);
    assert_eq!(r.daftar, vec![1u32]);
    let r = susun_riwayat(BacaanRiwayat::Terbaca(vec![1u32, 2]), 3u32);
    assert_eq!(r.daftar, vec![1u32, 2, 3]);
}
