use minirustcli::converter::{konversi, Desimal, JenisNilai, KesalahanKonversi, Operasi};
use minirustcli::models::Satuan;

fn angka(d: &Desimal) -> f64 {
    d.angka as f64 / 10f64.powi(d.skala as i32)
}

fn terapkan(langkah: &[Operasi], nilai: f64) -> f64 {
    let mut x = nilai;
    for o in langkah {
        x = match o {
            Operasi::Tambah(d) => x + angka(d),
            Operasi::Kurang(d) => x - angka(d),
            Operasi::Kali(d) => x * angka(d),
            Operasi::Bagi(d) => x / angka(d),
        };
    }
    x
}

fn jenis(nilai: f64) -> JenisNilai {
    if nilai.is_nan() || nilai.is_infinite() {
        JenisNilai::TakHingga
    } else if nilai < 0.0 {
        JenisNilai::Negatif
    } else {
        JenisNilai::TakNegatif
    }
}

fn ubah(nilai: f64, dari: Satuan, ke: Satuan) -> Result<f64, KesalahanKonversi> {
    konversi(jenis(nilai), dari, ke).map(|l| terapkan(&l, nilai))
}

#[test]
fn celsius_zero_is_fahrenheit_32() {
    assert_eq!(ubah(0.0, Satuan::Celsius, Satuan::Fahrenheit), Ok(32.0));
}

#[test]
fn celsius_100_is_kelvin_373_15() {
    assert_eq!(ubah(100.0, Satuan::Celsius, Satuan::Kelvin), Ok(373.15));
}

#[test]
fn one_km_in_miles() {
    let r = ubah(1.0, Satuan::Km, Satuan::Miles).unwrap();
    assert!((r - 0.621371).abs() < 1e-6);
}

#[test]
fn one_kg_in_lbs() {
    let r = ubah(1.0, Satuan::Kg, Satuan::Lbs).unwrap();
    assert!((r - 2.2046226).abs() < 1e-7);
}

#[test]
fn exact_values_of_each_table() {
    assert_eq!(ubah(212.0, Satuan::Fahrenheit, Satuan::Celsius), Ok(100.0));
    assert_eq!(ubah(0.0, Satuan::Kelvin, Satuan::Celsius), Ok(-273.15));
    assert_eq!(ubah(250.0, Satuan::Cm, Satuan::Km), Ok(0.0025));
    assert_eq!(ubah(2500.0, Satuan::Gram, Satuan::Kg), Ok(2.5));
    assert_eq!(ubah(1.5, Satuan::Liter, Satuan::Ml), Ok(1500.0));
    assert_eq!(ubah(2.0, Satuan::Jam, Satuan::Menit), Ok(120.0));
    assert_eq!(ubah(36.0, Satuan::Kmh, Satuan::Ms), Ok(10.0));
    assert_eq!(ubah(1.0, Satuan::GB, Satuan::MB), Ok(1024.0));
    assert_eq!(ubah(1.0, Satuan::MB, Satuan::Byte), Ok(1048576.0));
    let r = ubah(1.0, Satuan::Gallon, Satuan::Liter).unwrap();
    assert!((r - 3.785411784).abs() < 1e-12);
    let r = ubah(1.0, Satuan::Mph, Satuan::Ms).unwrap();
    assert!((r - 0.44704).abs() < 1e-12);
    let r = ubah(1.0, Satuan::Inch, Satuan::Cm).unwrap();
    assert!((r - 2.54).abs() < 1e-12);
    let r = ubah(16.0, Satuan::Ounce, Satuan::Gram).unwrap();
    assert!((r - 453.592).abs() < 1e-9);
}

#[test]
fn plan_of_each_step() {
    assert_eq!(
        konversi(JenisNilai::TakNegatif, Satuan::Fahrenheit, Satuan::Kelvin),
        Ok(vec![
            Operasi::Kurang(Desimal { angka: 32, skala: 0 }),
            Operasi::Kali(Desimal { angka: 5, skala: 0 }),
            Operasi::Bagi(Desimal { angka: 9, skala: 0 }),
            Operasi::Tambah(Desimal { angka: 27315, skala: 2 }),
        ])
    );
    assert_eq!(
        konversi(JenisNilai::Negatif, Satuan::Km, Satuan::Miles),
        Ok(vec![
            Operasi::Kali(Desimal { angka: 1000, skala: 0 }),
            Operasi::Bagi(Desimal { angka: 1609344, skala: 3 }),
        ])
    );
}

#[test]
fn same_unit_returns_value_unchanged() {
    for u in Satuan::semua() {
        for v in [0.0, 1.5, -40.0, 1e300, -0.0] {
            assert_eq!(ubah(v, u, u), Ok(v));
        }
    }
    assert_eq!(ubah(-5.0, Satuan::Kelvin, Satuan::Kelvin), Ok(-5.0));
}

#[test]
fn round_trip_stays_within_tolerance() {
    for a in Satuan::semua() {
        for b in a.kategori().satuan_satuan() {
            for v in [0.0, 1.0, 37.5, 1234.5678, 300.0] {
                let pergi = ubah(v, a, b).unwrap();
                let pulang = ubah(pergi, b, a).unwrap();
                assert!((pulang - v).abs() <= 1e-9 * v.abs().max(1.0), "{:?} {:?} {}", a, b, v);
            }
        }
    }
}

#[test]
fn cross_category_is_refused() {
    assert_eq!(
        ubah(1.0, Satuan::Celsius, Satuan::Kg),
        Err(KesalahanKonversi::KategoriBerbeda { dari: Satuan::Celsius, ke: Satuan::Kg })
    );
    for a in Satuan::semua() {
        for b in Satuan::semua() {
            if a.kategori() != b.kategori() {
                assert_eq!(
                    konversi(JenisNilai::TakNegatif, a, b),
                    Err(KesalahanKonversi::KategoriBerbeda { dari: a, ke: b })
                );
            }
        }
    }
}

#[test]
fn negative_kelvin_is_refused() {
    assert_eq!(ubah(-1.0, Satuan::Kelvin, Satuan::Celsius), Err(KesalahanKonversi::DiLuarDomain));
    assert_eq!(ubah(-0.5, Satuan::Kelvin, Satuan::Fahrenheit), Err(KesalahanKonversi::DiLuarDomain));
    assert_eq!(ubah(0.0, Satuan::Kelvin, Satuan::Celsius), Ok(-273.15));
    assert!(ubah(-300.0, Satuan::Celsius, Satuan::Kelvin).is_ok());
}

#[test]
fn nan_and_infinity_are_refused() {
    for a in Satuan::semua() {
        for b in Satuan::semua() {
            for v in [f64::NAN, f64::INFINITY, f64::NEG_INFINITY] {
                assert_eq!(ubah(v, a, b), Err(KesalahanKonversi::NilaiTidakValid));
            }
        }
    }
}
