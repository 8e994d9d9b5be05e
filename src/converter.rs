use vstd::prelude::*;
use crate::models::{Kategori, Satuan};

verus! {

/// A non-negative decimal constant: `angka / 10^skala`.
#[derive(Debug, Clone, Copy, PartialEq, Eq, Structural)]
pub struct Desimal {
    pub angka: u64,
    pub skala: u32,
}

/// One arithmetic step applied to the running value.
#[derive(Debug, Clone, Copy, PartialEq, Eq, Structural)]
pub enum Operasi {
    Tambah(Desimal),
    Kurang(Desimal),
    Kali(Desimal),
    Bagi(Desimal),
}

/// What a conversion needs to know of the input value.
#[derive(Debug, Clone, Copy, PartialEq, Eq, Structural)]
pub enum JenisNilai {
    /// Not a number, or infinite.
    TakHingga,
    /// Finite and below zero.
    Negatif,
    /// Finite and not below zero.
    TakNegatif,
}

/// Why a conversion was refused.
#[derive(Debug, Clone, Copy, PartialEq, Eq, Structural)]
pub enum KesalahanKonversi {
    /// The input is not a number or is infinite.
    NilaiTidakValid,
    /// The two units belong to different categories.
    KategoriBerbeda { dari: Satuan, ke: Satuan },
    /// The value lies below absolute zero, given in Kelvin.
    DiLuarDomain,
}

/// The steps that take a value in `u` to the intermediate unit of its category.
pub open spec fn menuju_antara(u: Satuan) -> Seq<Operasi> {
    match u {
        Satuan::Celsius => seq![],
        Satuan::Fahrenheit => seq![Operasi::Kurang(Desimal { angka: 32, skala: 0 }), Operasi::Kali(Desimal { angka: 5, skala: 0 }), Operasi::Bagi(Desimal { angka: 9, skala: 0 })],
        Satuan::Kelvin => seq![Operasi::Kurang(Desimal { angka: 27315, skala: 2 })],
        Satuan::Cm => seq![Operasi::Bagi(Desimal { angka: 100, skala: 0 })],
        Satuan::Inch => seq![Operasi::Kali(Desimal { angka: 254, skala: 4 })],
        Satuan::Km => seq![Operasi::Kali(Desimal { angka: 1000, skala: 0 })],
        Satuan::Miles => seq![Operasi::Kali(Desimal { angka: 1609344, skala: 3 })],
        Satuan::Kg => seq![],
        Satuan::Gram => seq![Operasi::Bagi(Desimal { angka: 1000, skala: 0 })],
        Satuan::Lbs => seq![Operasi::Kali(Desimal { angka: 45359237, skala: 8 })],
        Satuan::Ounce => seq![Operasi::Kali(Desimal { angka: 283495, skala: 7 })],
        Satuan::Liter => seq![],
        Satuan::Gallon => seq![Operasi::Kali(Desimal { angka: 3785411784, skala: 9 })],
        Satuan::Ml => seq![Operasi::Bagi(Desimal { angka: 1000, skala: 0 })],
        Satuan::Detik => seq![],
        Satuan::Menit => seq![Operasi::Kali(Desimal { angka: 60, skala: 0 })],
        Satuan::Jam => seq![Operasi::Kali(Desimal { angka: 3600, skala: 0 })],
        Satuan::Kmh => seq![Operasi::Bagi(Desimal { angka: 36, skala: 1 })],
        Satuan::Mph => seq![Operasi::Kali(Desimal { angka: 44704, skala: 5 })],
        Satuan::Ms => seq![],
        Satuan::Byte => seq![],
        Satuan::KB => seq![Operasi::Kali(Desimal { angka: 1024, skala: 0 })],
        Satuan::MB => seq![Operasi::Kali(Desimal { angka: 1048576, skala: 0 })],
        Satuan::GB => seq![Operasi::Kali(Desimal { angka: 1073741824, skala: 0 })],
    }
}

/// The steps that take a value in the intermediate unit of `u`'s category to `u`.
pub open spec fn dari_antara(u: Satuan) -> Seq<Operasi> {
    match u {
        Satuan::Celsius => seq![],
        Satuan::Fahrenheit => seq![Operasi::Kali(Desimal { angka: 9, skala: 0 }), Operasi::Bagi(Desimal { angka: 5, skala: 0 }), Operasi::Tambah(Desimal { angka: 32, skala: 0 })],
        Satuan::Kelvin => seq![Operasi::Tambah(Desimal { angka: 27315, skala: 2 })],
        Satuan::Cm => seq![Operasi::Kali(Desimal { angka: 100, skala: 0 })],
        Satuan::Inch => seq![Operasi::Bagi(Desimal { angka: 254, skala: 4 })],
        Satuan::Km => seq![Operasi::Bagi(Desimal { angka: 1000, skala: 0 })],
        Satuan::Miles => seq![Operasi::Bagi(Desimal { angka: 1609344, skala: 3 })],
        Satuan::Kg => seq![],
        Satuan::Gram => seq![Operasi::Kali(Desimal { angka: 1000, skala: 0 })],
        Satuan::Lbs => seq![Operasi::Bagi(Desimal { angka: 45359237, skala: 8 })],
        Satuan::Ounce => seq![Operasi::Bagi(Desimal { angka: 283495, skala: 7 })],
        Satuan::Liter => seq![],
        Satuan::Gallon => seq![Operasi::Bagi(Desimal { angka: 3785411784, skala: 9 })],
        Satuan::Ml => seq![Operasi::Kali(Desimal { angka: 1000, skala: 0 })],
        Satuan::Detik => seq![],
        Satuan::Menit => seq![Operasi::Bagi(Desimal { angka: 60, skala: 0 })],
        Satuan::Jam => seq![Operasi::Bagi(Desimal { angka: 3600, skala: 0 })],
        Satuan::Kmh => seq![Operasi::Kali(Desimal { angka: 36, skala: 1 })],
        Satuan::Mph => seq![Operasi::Bagi(Desimal { angka: 44704, skala: 5 })],
        Satuan::Ms => seq![],
        Satuan::Byte => seq![],
        Satuan::KB => seq![Operasi::Bagi(Desimal { angka: 1024, skala: 0 })],
        Satuan::MB => seq![Operasi::Bagi(Desimal { angka: 1048576, skala: 0 })],
        Satuan::GB => seq![Operasi::Bagi(Desimal { angka: 1073741824, skala: 0 })],
    }
}

/// The steps of a conversion between two units of one category.
pub open spec fn langkah_konversi(dari: Satuan, ke: Satuan) -> Seq<Operasi> {
    menuju_antara(dari) + dari_antara(ke)
}

/// The outcome of a conversion request: the steps to apply, or the refusal.
pub open spec fn hasil_konversi(jenis: JenisNilai, dari: Satuan, ke: Satuan) -> Result<Seq<Operasi>, KesalahanKonversi> {
    if jenis is TakHingga {
        Err(KesalahanKonversi::NilaiTidakValid)
    } else if dari == ke {
        Ok(Seq::empty())
    } else if dari.kategori_spec() != ke.kategori_spec() {
        Err(KesalahanKonversi::KategoriBerbeda { dari, ke })
    } else if dari == Satuan::Kelvin && jenis is Negatif {
        Err(KesalahanKonversi::DiLuarDomain)
    } else {
        Ok(langkah_konversi(dari, ke))
    }
}

pub open spec fn hasil_sesuai(r: Result<Vec<Operasi>, KesalahanKonversi>, h: Result<Seq<Operasi>, KesalahanKonversi>) -> bool {
    match r {
        Ok(v) => h == Ok::<Seq<Operasi>, KesalahanKonversi>(v@),
        Err(e) => h == Err::<Seq<Operasi>, KesalahanKonversi>(e),
    }
}

fn desimal(angka: u64, skala: u32) -> (r: Desimal)
    ensures
        r == (Desimal { angka, skala }),
{
    Desimal { angka, skala }
}

/// Plans the conversion of a value of the given kind from `dari` to `ke`.
///
/// A non-finite value is refused first. Equal units need no step at all, so
/// the lower bound of the unit is not checked for them. Units of different
/// categories are refused, then a negative value in Kelvin. Otherwise the steps
/// go through the intermediate unit of the category.
pub fn konversi(jenis: JenisNilai, dari: Satuan, ke: Satuan) -> (r: Result<Vec<Operasi>, KesalahanKonversi>)
    ensures
        hasil_sesuai(r, hasil_konversi(jenis, dari, ke)),
{
    if jenis == JenisNilai::TakHingga {
        return Err(KesalahanKonversi::NilaiTidakValid);
    }
    if dari == ke {
        let kosong: Vec<Operasi> = Vec::new();
        assert(kosong@ =~= Seq::<Operasi>::empty());
        return Ok(kosong);
    }
    if dari.kategori() != ke.kategori() {
        return Err(KesalahanKonversi::KategoriBerbeda { dari, ke });
    }
    if dari == Satuan::Kelvin && jenis == JenisNilai::Negatif {
        return Err(KesalahanKonversi::DiLuarDomain);
    }
    match dari.kategori() {
        Kategori::Suhu => Ok(konversi_suhu(dari, ke)),
        Kategori::Panjang => Ok(konversi_panjang(dari, ke)),
        Kategori::Berat => Ok(konversi_berat(dari, ke)),
        Kategori::Volume => Ok(konversi_volume(dari, ke)),
        Kategori::Waktu => Ok(konversi_waktu(dari, ke)),
        Kategori::Kecepatan => Ok(konversi_kecepatan(dari, ke)),
        Kategori::Data => Ok(konversi_data(dari, ke)),
    }
}

/// The steps between two units of category suhu, through Celsius.
fn konversi_suhu(dari: Satuan, ke: Satuan) -> (r: Vec<Operasi>)
    requires
        dari.kategori_spec() == Kategori::Suhu,
        ke.kategori_spec() == Kategori::Suhu,
    ensures
        r@ == langkah_konversi(dari, ke),
{
    let mut r: Vec<Operasi> = Vec::new();
    match dari {
        Satuan::Celsius => {},
        Satuan::Fahrenheit => {
            r.push(Operasi::Kurang(desimal(32, 0)));
            r.push(Operasi::Kali(desimal(5, 0)));
            r.push(Operasi::Bagi(desimal(9, 0)));
        },
        Satuan::Kelvin => {
            r.push(Operasi::Kurang(desimal(27315, 2)));
        },
        _ => {},
    }
    assert(r@ =~= menuju_antara(dari));
    match ke {
        Satuan::Celsius => {},
        Satuan::Fahrenheit => {
            r.push(Operasi::Kali(desimal(9, 0)));
            r.push(Operasi::Bagi(desimal(5, 0)));
            r.push(Operasi::Tambah(desimal(32, 0)));
        },
        Satuan::Kelvin => {
            r.push(Operasi::Tambah(desimal(27315, 2)));
        },
        _ => {},
    }
    assert(r@ =~= langkah_konversi(dari, ke));
    r
}

/// The steps between two units of category panjang, through the metre.
fn konversi_panjang(dari: Satuan, ke: Satuan) -> (r: Vec<Operasi>)
    requires
        dari.kategori_spec() == Kategori::Panjang,
        ke.kategori_spec() == Kategori::Panjang,
    ensures
        r@ == langkah_konversi(dari, ke),
{
    let mut r: Vec<Operasi> = Vec::new();
    match dari {
        Satuan::Cm => {
            r.push(Operasi::Bagi(desimal(100, 0)));
        },
        Satuan::Inch => {
            r.push(Operasi::Kali(desimal(254, 4)));
        },
        Satuan::Km => {
            r.push(Operasi::Kali(desimal(1000, 0)));
        },
        Satuan::Miles => {
            r.push(Operasi::Kali(desimal(1609344, 3)));
        },
        _ => {},
    }
    assert(r@ =~= menuju_antara(dari));
    match ke {
        Satuan::Cm => {
            r.push(Operasi::Kali(desimal(100, 0)));
        },
        Satuan::Inch => {
            r.push(Operasi::Bagi(desimal(254, 4)));
        },
        Satuan::Km => {
            r.push(Operasi::Bagi(desimal(1000, 0)));
        },
        Satuan::Miles => {
            r.push(Operasi::Bagi(desimal(1609344, 3)));
        },
        _ => {},
    }
    assert(r@ =~= langkah_konversi(dari, ke));
    r
}

/// The steps between two units of category berat, through the kilogram.
fn konversi_berat(dari: Satuan, ke: Satuan) -> (r: Vec<Operasi>)
    requires
        dari.kategori_spec() == Kategori::Berat,
        ke.kategori_spec() == Kategori::Berat,
    ensures
        r@ == langkah_konversi(dari, ke),
{
    let mut r: Vec<Operasi> = Vec::new();
    match dari {
        Satuan::Kg => {},
        Satuan::Gram => {
            r.push(Operasi::Bagi(desimal(1000, 0)));
        },
        Satuan::Lbs => {
            r.push(Operasi::Kali(desimal(45359237, 8)));
        },
        Satuan::Ounce => {
            r.push(Operasi::Kali(desimal(283495, 7)));
        },
        _ => {},
    }
    assert(r@ =~= menuju_antara(dari));
    match ke {
        Satuan::Kg => {},
        Satuan::Gram => {
            r.push(Operasi::Kali(desimal(1000, 0)));
        },
        Satuan::Lbs => {
            r.push(Operasi::Bagi(desimal(45359237, 8)));
        },
        Satuan::Ounce => {
            r.push(Operasi::Bagi(desimal(283495, 7)));
        },
        _ => {},
    }
    assert(r@ =~= langkah_konversi(dari, ke));
    r
}

/// The steps between two units of category volume, through the litre.
fn konversi_volume(dari: Satuan, ke: Satuan) -> (r: Vec<Operasi>)
    requires
        dari.kategori_spec() == Kategori::Volume,
        ke.kategori_spec() == Kategori::Volume,
    ensures
        r@ == langkah_konversi(dari, ke),
{
    let mut r: Vec<Operasi> = Vec::new();
    match dari {
        Satuan::Liter => {},
        Satuan::Gallon => {
            r.push(Operasi::Kali(desimal(3785411784, 9)));
        },
        Satuan::Ml => {
            r.push(Operasi::Bagi(desimal(1000, 0)));
        },
        _ => {},
    }
    assert(r@ =~= menuju_antara(dari));
    match ke {
        Satuan::Liter => {},
        Satuan::Gallon => {
            r.push(Operasi::Bagi(desimal(3785411784, 9)));
        },
        Satuan::Ml => {
            r.push(Operasi::Kali(desimal(1000, 0)));
        },
        _ => {},
    }
    assert(r@ =~= langkah_konversi(dari, ke));
    r
}

/// The steps between two units of category waktu, through the second.
fn konversi_waktu(dari: Satuan, ke: Satuan) -> (r: Vec<Operasi>)
    requires
        dari.kategori_spec() == Kategori::Waktu,
        ke.kategori_spec() == Kategori::Waktu,
    ensures
        r@ == langkah_konversi(dari, ke),
{
    let mut r: Vec<Operasi> = Vec::new();
    match dari {
        Satuan::Detik => {},
        Satuan::Menit => {
            r.push(Operasi::Kali(desimal(60, 0)));
        },
        Satuan::Jam => {
            r.push(Operasi::Kali(desimal(3600, 0)));
        },
        _ => {},
    }
    assert(r@ =~= menuju_antara(dari));
    match ke {
        Satuan::Detik => {},
        Satuan::Menit => {
            r.push(Operasi::Bagi(desimal(60, 0)));
        },
        Satuan::Jam => {
            r.push(Operasi::Bagi(desimal(3600, 0)));
        },
        _ => {},
    }
    assert(r@ =~= langkah_konversi(dari, ke));
    r
}

/// The steps between two units of category kecepatan, through metres per second.
fn konversi_kecepatan(dari: Satuan, ke: Satuan) -> (r: Vec<Operasi>)
    requires
        dari.kategori_spec() == Kategori::Kecepatan,
        ke.kategori_spec() == Kategori::Kecepatan,
    ensures
        r@ == langkah_konversi(dari, ke),
{
    let mut r: Vec<Operasi> = Vec::new();
    match dari {
        Satuan::Kmh => {
            r.push(Operasi::Bagi(desimal(36, 1)));
        },
        Satuan::Mph => {
            r.push(Operasi::Kali(desimal(44704, 5)));
        },
        Satuan::Ms => {},
        _ => {},
    }
    assert(r@ =~= menuju_antara(dari));
    match ke {
        Satuan::Kmh => {
            r.push(Operasi::Kali(desimal(36, 1)));
        },
        Satuan::Mph => {
            r.push(Operasi::Bagi(desimal(44704, 5)));
        },
        Satuan::Ms => {},
        _ => {},
    }
    assert(r@ =~= langkah_konversi(dari, ke));
    r
}

/// The steps between two units of category data, through the byte.
fn konversi_data(dari: Satuan, ke: Satuan) -> (r: Vec<Operasi>)
    requires
        dari.kategori_spec() == Kategori::Data,
        ke.kategori_spec() == Kategori::Data,
    ensures
        r@ == langkah_konversi(dari, ke),
{
    let mut r: Vec<Operasi> = Vec::new();
    match dari {
        Satuan::Byte => {},
        Satuan::KB => {
            r.push(Operasi::Kali(desimal(1024, 0)));
        },
        Satuan::MB => {
            r.push(Operasi::Kali(desimal(1048576, 0)));
        },
        Satuan::GB => {
            r.push(Operasi::Kali(desimal(1073741824, 0)));
        },
        _ => {},
    }
    assert(r@ =~= menuju_antara(dari));
    match ke {
        Satuan::Byte => {},
        Satuan::KB => {
            r.push(Operasi::Bagi(desimal(1024, 0)));
        },
        Satuan::MB => {
            r.push(Operasi::Bagi(desimal(1048576, 0)));
        },
        Satuan::GB => {
            r.push(Operasi::Bagi(desimal(1073741824, 0)));
        },
        _ => {},
    }
    assert(r@ =~= langkah_konversi(dari, ke));
    r
}

} // verus!
