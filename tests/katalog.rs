use minirustcli::models::{Kategori, Satuan};

#[test]
fn resolve_ignores_letter_case() {
    assert_eq!(Satuan::dari_str("KG"), Some(Satuan::Kg));
    assert_eq!(Satuan::dari_str("kg"), Some(Satuan::Kg));
    assert_eq!(Satuan::dari_str("Celsius"), Some(Satuan::Celsius));
    assert_eq!(Satuan::dari_str("KM/H"), Some(Satuan::Kmh));
}

#[test]
fn resolve_accepts_aliases() {
    assert_eq!(Satuan::dari_str("l"), Some(Satuan::Liter));
    assert_eq!(Satuan::dari_str("liter"), Some(Satuan::Liter));
    assert_eq!(Satuan::dari_str("gal"), Some(Satuan::Gallon));
    for s in ["s", "sec", "second", "detik"] {
        assert_eq!(Satuan::dari_str(s), Some(Satuan::Detik));
    }
    for s in ["m", "min", "minute", "menit"] {
        assert_eq!(Satuan::dari_str(s), Some(Satuan::Menit));
    }
    for s in ["h", "hour", "jam"] {
        assert_eq!(Satuan::dari_str(s), Some(Satuan::Jam));
    }
    assert_eq!(Satuan::dari_str("kmh"), Some(Satuan::Kmh));
    assert_eq!(Satuan::dari_str("ms"), Some(Satuan::Ms));
    assert_eq!(Satuan::dari_str("m/s"), Some(Satuan::Ms));
    assert_eq!(Satuan::dari_str("b"), Some(Satuan::Byte));
    assert_eq!(Satuan::dari_str("GB"), Some(Satuan::GB));
}

#[test]
fn resolve_rejects_unknown_text() {
    assert_eq!(Satuan::dari_str("celcius"), None);
    assert_eq!(Satuan::dari_str(""), None);
    assert_eq!(Satuan::dari_str("meter"), None);
    assert_eq!(Satuan::dari_str("°C"), None);
}

#[test]
fn resolve_lowercase_only_matches_exact_spelling() {
    assert_eq!(Satuan::dari_str_kecil("kg"), Some(Satuan::Kg));
    assert_eq!(Satuan::dari_str_kecil("KG"), None);
}

#[test]
fn every_unit_resolves_by_its_name() {
    for u in Satuan::semua() {
        assert_eq!(Satuan::dari_str(u.nama()), Some(u));
    }
}

#[test]
fn catalog_order_and_size() {
    let semua = Satuan::semua();
    assert_eq!(semua.len(), 24);
    assert_eq!(semua[0], Satuan::Celsius);
    assert_eq!(semua[3], Satuan::Cm);
    assert_eq!(semua[23], Satuan::GB);
}

#[test]
fn categories_and_members_agree() {
    let kategori = [
        Kategori::Suhu,
        Kategori::Panjang,
        Kategori::Berat,
        Kategori::Volume,
        Kategori::Waktu,
        Kategori::Kecepatan,
        Kategori::Data,
    ];
    let mut total = 0;
    for k in kategori {
        for u in k.satuan_satuan() {
            assert_eq!(u.kategori(), k);
            total += 1;
        }
    }
    assert_eq!(total, 24);
    assert_eq!(
        Kategori::Panjang.satuan_satuan(),
        vec![Satuan::Cm, Satuan::Inch, Satuan::Km, Satuan::Miles]
    );
}

#[test]
fn symbols_and_names() {
    assert_eq!(Satuan::Celsius.simbol(), "°C");
    assert_eq!(Satuan::Celsius.nama(), "celsius");
    assert_eq!(Satuan::Gram.simbol(), "g");
    assert_eq!(Satuan::Liter.simbol(), "L");
    assert_eq!(Satuan::Kmh.nama(), "km/h");
    assert_eq!(Satuan::KB.simbol(), "KB");
    assert_eq!(Satuan::KB.nama(), "kb");
    assert_eq!(Kategori::Suhu.nama(), "suhu");
    assert_eq!(Kategori::Kecepatan.nama(), "kecepatan");
    assert_eq!(Satuan::Mph.kategori(), Kategori::Kecepatan);
}

#[test]
fn every_unit_has_an_alias_beyond_its_name() {
    let alias = [
        ("c", Satuan::Celsius),
        ("F", Satuan::Fahrenheit),
        ("k", Satuan::Kelvin),
        ("centimeter", Satuan::Cm),
        ("inches", Satuan::Inch),
        ("Kilometer", Satuan::Km),
        ("mile", Satuan::Miles),
        ("mi", Satuan::Miles),
        ("kilogram", Satuan::Kg),
        ("g", Satuan::Gram),
        ("lb", Satuan::Lbs),
        ("pound", Satuan::Lbs),
        ("oz", Satuan::Ounce),
        ("milliliter", Satuan::Ml),
        ("mi/h", Satuan::Mph),
        ("kilobyte", Satuan::KB),
        ("megabyte", Satuan::MB),
        ("GIGABYTE", Satuan::GB),
    ];
    for (teks, u) in alias {
        assert_eq!(Satuan::dari_str(teks), Some(u), "{}", teks);
        assert_ne!(teks.to_lowercase(), u.nama());
    }
    for u in Satuan::semua() {
        assert!(alias.iter().any(|(_, v)| *v == u) || ["liter", "gallon", "detik", "menit", "jam", "km/h", "m/s", "byte"].contains(&u.nama()));
    }
}
