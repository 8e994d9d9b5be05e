use vstd::prelude::*;
use crate::teks::{huruf_kecil, huruf_kecil_dari, teks_sama};

verus! {

/// One concrete measurement unit of the catalog.
#[derive(Debug, Clone, Copy, PartialEq, Eq, Structural)]
pub enum Satuan {
    Celsius,
    Fahrenheit,
    Kelvin,
    Cm,
    Inch,
    Km,
    Miles,
    Kg,
    Gram,
    Lbs,
    Ounce,
    Liter,
    Gallon,
    Ml,
    Detik,
    Menit,
    Jam,
    Kmh,
    Mph,
    Ms,
    Byte,
    KB,
    MB,
    GB,
}

/// A group of units that can be converted into one another.
#[derive(Debug, Clone, Copy, PartialEq, Eq, Structural)]
pub enum Kategori {
    Suhu,
    Panjang,
    Berat,
    Volume,
    Waktu,
    Kecepatan,
    Data,
}

/// The unit that an accepted (already lowercase) spelling stands for.
pub open spec fn satuan_dari_alias(t: Seq<char>) -> Option<Satuan> {
    if t == "celsius"@ || t == "c"@ {
        Some(Satuan::Celsius)
    } else if t == "fahrenheit"@ || t == "f"@ {
        Some(Satuan::Fahrenheit)
    } else if t == "kelvin"@ || t == "k"@ {
        Some(Satuan::Kelvin)
    } else if t == "cm"@ || t == "centimeter"@ {
        Some(Satuan::Cm)
    } else if t == "inch"@ || t == "inches"@ {
        Some(Satuan::Inch)
    } else if t == "km"@ || t == "kilometer"@ {
        Some(Satuan::Km)
    } else if t == "miles"@ || t == "mile"@ || t == "mi"@ {
        Some(Satuan::Miles)
    } else if t == "kg"@ || t == "kilogram"@ {
        Some(Satuan::Kg)
    } else if t == "gram"@ || t == "g"@ {
        Some(Satuan::Gram)
    } else if t == "lbs"@ || t == "lb"@ || t == "pound"@ {
        Some(Satuan::Lbs)
    } else if t == "ounce"@ || t == "oz"@ {
        Some(Satuan::Ounce)
    } else if t == "liter"@ || t == "l"@ {
        Some(Satuan::Liter)
    } else if t == "gallon"@ || t == "gal"@ {
        Some(Satuan::Gallon)
    } else if t == "ml"@ || t == "milliliter"@ {
        Some(Satuan::Ml)
    } else if t == "detik"@ || t == "second"@ || t == "sec"@ || t == "s"@ {
        Some(Satuan::Detik)
    } else if t == "menit"@ || t == "minute"@ || t == "min"@ || t == "m"@ {
        Some(Satuan::Menit)
    } else if t == "jam"@ || t == "hour"@ || t == "h"@ {
        Some(Satuan::Jam)
    } else if t == "km/h"@ || t == "kmh"@ {
        Some(Satuan::Kmh)
    } else if t == "mph"@ || t == "mi/h"@ {
        Some(Satuan::Mph)
    } else if t == "m/s"@ || t == "ms"@ {
        Some(Satuan::Ms)
    } else if t == "byte"@ || t == "b"@ {
        Some(Satuan::Byte)
    } else if t == "kb"@ || t == "kilobyte"@ {
        Some(Satuan::KB)
    } else if t == "mb"@ || t == "megabyte"@ {
        Some(Satuan::MB)
    } else if t == "gb"@ || t == "gigabyte"@ {
        Some(Satuan::GB)
    } else {
        None
    }
}

/// The catalog in its fixed order.
pub open spec fn katalog() -> Seq<Satuan> {
    seq![
        Satuan::Celsius,
        Satuan::Fahrenheit,
        Satuan::Kelvin,
        Satuan::Cm,
        Satuan::Inch,
        Satuan::Km,
        Satuan::Miles,
        Satuan::Kg,
        Satuan::Gram,
        Satuan::Lbs,
        Satuan::Ounce,
        Satuan::Liter,
        Satuan::Gallon,
        Satuan::Ml,
        Satuan::Detik,
        Satuan::Menit,
        Satuan::Jam,
        Satuan::Kmh,
        Satuan::Mph,
        Satuan::Ms,
        Satuan::Byte,
        Satuan::KB,
        Satuan::MB,
        Satuan::GB,
    ]
}

impl Kategori {
    pub open spec fn nama_spec(self) -> Seq<char> {
        match self {
            Kategori::Suhu => "suhu"@,
            Kategori::Panjang => "panjang"@,
            Kategori::Berat => "berat"@,
            Kategori::Volume => "volume"@,
            Kategori::Waktu => "waktu"@,
            Kategori::Kecepatan => "kecepatan"@,
            Kategori::Data => "data"@,
        }
    }

    /// The members of the category, in catalog order.
    pub open spec fn anggota(self) -> Seq<Satuan> {
        match self {
            Kategori::Suhu => seq![Satuan::Celsius, Satuan::Fahrenheit, Satuan::Kelvin],
            Kategori::Panjang => seq![Satuan::Cm, Satuan::Inch, Satuan::Km, Satuan::Miles],
            Kategori::Berat => seq![Satuan::Kg, Satuan::Gram, Satuan::Lbs, Satuan::Ounce],
            Kategori::Volume => seq![Satuan::Liter, Satuan::Gallon, Satuan::Ml],
            Kategori::Waktu => seq![Satuan::Detik, Satuan::Menit, Satuan::Jam],
            Kategori::Kecepatan => seq![Satuan::Kmh, Satuan::Mph, Satuan::Ms],
            Kategori::Data => seq![Satuan::Byte, Satuan::KB, Satuan::MB, Satuan::GB],
        }
    }

    pub fn satuan_satuan(&self) -> (r: Vec<Satuan>)
        ensures
            r@ == self.anggota(),
    {
        let r = match self {
            Kategori::Suhu => vec![Satuan::Celsius, Satuan::Fahrenheit, Satuan::Kelvin],
            Kategori::Panjang => vec![Satuan::Cm, Satuan::Inch, Satuan::Km, Satuan::Miles],
            Kategori::Berat => vec![Satuan::Kg, Satuan::Gram, Satuan::Lbs, Satuan::Ounce],
            Kategori::Volume => vec![Satuan::Liter, Satuan::Gallon, Satuan::Ml],
            Kategori::Waktu => vec![Satuan::Detik, Satuan::Menit, Satuan::Jam],
            Kategori::Kecepatan => vec![Satuan::Kmh, Satuan::Mph, Satuan::Ms],
            Kategori::Data => vec![Satuan::Byte, Satuan::KB, Satuan::MB, Satuan::GB],
        };
        assert(r@ =~= self.anggota());
        r
    }


    pub fn nama(&self) -> (r: &'static str)
        ensures
            r@ == self.nama_spec(),
    {
        match self {
            Kategori::Suhu => "suhu",
            Kategori::Panjang => "panjang",
            Kategori::Berat => "berat",
            Kategori::Volume => "volume",
            Kategori::Waktu => "waktu",
            Kategori::Kecepatan => "kecepatan",
            Kategori::Data => "data",
        }
    }
}

impl Satuan {
    pub open spec fn kategori_spec(self) -> Kategori {
        match self {
            Satuan::Celsius | Satuan::Fahrenheit | Satuan::Kelvin => Kategori::Suhu,
            Satuan::Cm | Satuan::Inch | Satuan::Km | Satuan::Miles => Kategori::Panjang,
            Satuan::Kg | Satuan::Gram | Satuan::Lbs | Satuan::Ounce => Kategori::Berat,
            Satuan::Liter | Satuan::Gallon | Satuan::Ml => Kategori::Volume,
            Satuan::Detik | Satuan::Menit | Satuan::Jam => Kategori::Waktu,
            Satuan::Kmh | Satuan::Mph | Satuan::Ms => Kategori::Kecepatan,
            Satuan::Byte | Satuan::KB | Satuan::MB | Satuan::GB => Kategori::Data,
        }
    }

    pub open spec fn simbol_spec(self) -> Seq<char> {
        match self {
            Satuan::Celsius => "°C"@,
            Satuan::Fahrenheit => "°F"@,
            Satuan::Kelvin => "K"@,
            Satuan::Cm => "cm"@,
            Satuan::Inch => "inch"@,
            Satuan::Km => "km"@,
            Satuan::Miles => "miles"@,
            Satuan::Kg => "kg"@,
            Satuan::Gram => "g"@,
            Satuan::Lbs => "lbs"@,
            Satuan::Ounce => "oz"@,
            Satuan::Liter => "L"@,
            Satuan::Gallon => "gal"@,
            Satuan::Ml => "ml"@,
            Satuan::Detik => "s"@,
            Satuan::Menit => "min"@,
            Satuan::Jam => "h"@,
            Satuan::Kmh => "km/h"@,
            Satuan::Mph => "mph"@,
            Satuan::Ms => "m/s"@,
            Satuan::Byte => "B"@,
            Satuan::KB => "KB"@,
            Satuan::MB => "MB"@,
            Satuan::GB => "GB"@,
        }
    }

    pub open spec fn nama_spec(self) -> Seq<char> {
        match self {
            Satuan::Celsius => "celsius"@,
            Satuan::Fahrenheit => "fahrenheit"@,
            Satuan::Kelvin => "kelvin"@,
            Satuan::Cm => "cm"@,
            Satuan::Inch => "inch"@,
            Satuan::Km => "km"@,
            Satuan::Miles => "miles"@,
            Satuan::Kg => "kg"@,
            Satuan::Gram => "gram"@,
            Satuan::Lbs => "lbs"@,
            Satuan::Ounce => "ounce"@,
            Satuan::Liter => "liter"@,
            Satuan::Gallon => "gallon"@,
            Satuan::Ml => "ml"@,
            Satuan::Detik => "detik"@,
            Satuan::Menit => "menit"@,
            Satuan::Jam => "jam"@,
            Satuan::Kmh => "km/h"@,
            Satuan::Mph => "mph"@,
            Satuan::Ms => "m/s"@,
            Satuan::Byte => "byte"@,
            Satuan::KB => "kb"@,
            Satuan::MB => "mb"@,
            Satuan::GB => "gb"@,
        }
    }

    /// Finds the unit named by an already lowercase spelling.
    pub fn dari_str_kecil(t: &str) -> (r: Option<Satuan>)
        ensures
            r == satuan_dari_alias(t@),
    {
        if teks_sama(t, "celsius") || teks_sama(t, "c") {
            Some(Satuan::Celsius)
        } else if teks_sama(t, "fahrenheit") || teks_sama(t, "f") {
            Some(Satuan::Fahrenheit)
        } else if teks_sama(t, "kelvin") || teks_sama(t, "k") {
            Some(Satuan::Kelvin)
        } else if teks_sama(t, "cm") || teks_sama(t, "centimeter") {
            Some(Satuan::Cm)
        } else if teks_sama(t, "inch") || teks_sama(t, "inches") {
            Some(Satuan::Inch)
        } else if teks_sama(t, "km") || teks_sama(t, "kilometer") {
            Some(Satuan::Km)
        } else if teks_sama(t, "miles") || teks_sama(t, "mile") || teks_sama(t, "mi") {
            Some(Satuan::Miles)
        } else if teks_sama(t, "kg") || teks_sama(t, "kilogram") {
            Some(Satuan::Kg)
        } else if teks_sama(t, "gram") || teks_sama(t, "g") {
            Some(Satuan::Gram)
        } else if teks_sama(t, "lbs") || teks_sama(t, "lb") || teks_sama(t, "pound") {
            Some(Satuan::Lbs)
        } else if teks_sama(t, "ounce") || teks_sama(t, "oz") {
            Some(Satuan::Ounce)
        } else if teks_sama(t, "liter") || teks_sama(t, "l") {
            Some(Satuan::Liter)
        } else if teks_sama(t, "gallon") || teks_sama(t, "gal") {
            Some(Satuan::Gallon)
        } else if teks_sama(t, "ml") || teks_sama(t, "milliliter") {
            Some(Satuan::Ml)
        } else if teks_sama(t, "detik") || teks_sama(t, "second") || teks_sama(t, "sec") || teks_sama(t, "s") {
            Some(Satuan::Detik)
        } else if teks_sama(t, "menit") || teks_sama(t, "minute") || teks_sama(t, "min") || teks_sama(t, "m") {
            Some(Satuan::Menit)
        } else if teks_sama(t, "jam") || teks_sama(t, "hour") || teks_sama(t, "h") {
            Some(Satuan::Jam)
        } else if teks_sama(t, "km/h") || teks_sama(t, "kmh") {
            Some(Satuan::Kmh)
        } else if teks_sama(t, "mph") || teks_sama(t, "mi/h") {
            Some(Satuan::Mph)
        } else if teks_sama(t, "m/s") || teks_sama(t, "ms") {
            Some(Satuan::Ms)
        } else if teks_sama(t, "byte") || teks_sama(t, "b") {
            Some(Satuan::Byte)
        } else if teks_sama(t, "kb") || teks_sama(t, "kilobyte") {
            Some(Satuan::KB)
        } else if teks_sama(t, "mb") || teks_sama(t, "megabyte") {
            Some(Satuan::MB)
        } else if teks_sama(t, "gb") || teks_sama(t, "gigabyte") {
            Some(Satuan::GB)
        } else {
            None
        }
    }

    /// Finds the unit named by a spelling, in any letter case.
    pub fn dari_str(s: &str) -> (r: Option<Satuan>)
        ensures
            r == satuan_dari_alias(huruf_kecil(s@)),
    {
        let kecil = huruf_kecil_dari(s);
        Satuan::dari_str_kecil(kecil.as_str())
    }

    pub fn kategori(&self) -> (r: Kategori)
        ensures
            r == self.kategori_spec(),
    {
        match self {
            Satuan::Celsius | Satuan::Fahrenheit | Satuan::Kelvin => Kategori::Suhu,
            Satuan::Cm | Satuan::Inch | Satuan::Km | Satuan::Miles => Kategori::Panjang,
            Satuan::Kg | Satuan::Gram | Satuan::Lbs | Satuan::Ounce => Kategori::Berat,
            Satuan::Liter | Satuan::Gallon | Satuan::Ml => Kategori::Volume,
            Satuan::Detik | Satuan::Menit | Satuan::Jam => Kategori::Waktu,
            Satuan::Kmh | Satuan::Mph | Satuan::Ms => Kategori::Kecepatan,
            Satuan::Byte | Satuan::KB | Satuan::MB | Satuan::GB => Kategori::Data,
        }
    }

    pub fn simbol(&self) -> (r: &'static str)
        ensures
            r@ == self.simbol_spec(),
    {
        match self {
            Satuan::Celsius => "°C",
            Satuan::Fahrenheit => "°F",
            Satuan::Kelvin => "K",
            Satuan::Cm => "cm",
            Satuan::Inch => "inch",
            Satuan::Km => "km",
            Satuan::Miles => "miles",
            Satuan::Kg => "kg",
            Satuan::Gram => "g",
            Satuan::Lbs => "lbs",
            Satuan::Ounce => "oz",
            Satuan::Liter => "L",
            Satuan::Gallon => "gal",
            Satuan::Ml => "ml",
            Satuan::Detik => "s",
            Satuan::Menit => "min",
            Satuan::Jam => "h",
            Satuan::Kmh => "km/h",
            Satuan::Mph => "mph",
            Satuan::Ms => "m/s",
            Satuan::Byte => "B",
            Satuan::KB => "KB",
            Satuan::MB => "MB",
            Satuan::GB => "GB",
        }
    }

    pub fn nama(&self) -> (r: &'static str)
        ensures
            r@ == self.nama_spec(),
    {
        match self {
            Satuan::Celsius => "celsius",
            Satuan::Fahrenheit => "fahrenheit",
            Satuan::Kelvin => "kelvin",
            Satuan::Cm => "cm",
            Satuan::Inch => "inch",
            Satuan::Km => "km",
            Satuan::Miles => "miles",
            Satuan::Kg => "kg",
            Satuan::Gram => "gram",
            Satuan::Lbs => "lbs",
            Satuan::Ounce => "ounce",
            Satuan::Liter => "liter",
            Satuan::Gallon => "gallon",
            Satuan::Ml => "ml",
            Satuan::Detik => "detik",
            Satuan::Menit => "menit",
            Satuan::Jam => "jam",
            Satuan::Kmh => "km/h",
            Satuan::Mph => "mph",
            Satuan::Ms => "m/s",
            Satuan::Byte => "byte",
            Satuan::KB => "kb",
            Satuan::MB => "mb",
            Satuan::GB => "gb",
        }
    }

    /// Every unit of the catalog, in its fixed order.
    pub fn semua() -> (r: Vec<Satuan>)
        ensures
            r@ == katalog(),
    {
        let r = vec![
            Satuan::Celsius,
            Satuan::Fahrenheit,
            Satuan::Kelvin,
            Satuan::Cm,
            Satuan::Inch,
            Satuan::Km,
            Satuan::Miles,
            Satuan::Kg,
            Satuan::Gram,
            Satuan::Lbs,
            Satuan::Ounce,
            Satuan::Liter,
            Satuan::Gallon,
            Satuan::Ml,
            Satuan::Detik,
            Satuan::Menit,
            Satuan::Jam,
            Satuan::Kmh,
            Satuan::Mph,
            Satuan::Ms,
            Satuan::Byte,
            Satuan::KB,
            Satuan::MB,
            Satuan::GB,
        ];
        assert(r@ =~= katalog());
        r
    }
}

/// Every unit belongs to exactly one category: the one whose members list it.
pub proof fn lemma_satu_kategori(u: Satuan, k: Kategori)
    ensures
        k.anggota().contains(u) <==> u.kategori_spec() == k,
{
    if u.kategori_spec() == k {
        match u {
            Satuan::Celsius => assert(k.anggota()[0] == u),
            Satuan::Fahrenheit => assert(k.anggota()[1] == u),
            Satuan::Kelvin => assert(k.anggota()[2] == u),
            Satuan::Cm => assert(k.anggota()[0] == u),
            Satuan::Inch => assert(k.anggota()[1] == u),
            Satuan::Km => assert(k.anggota()[2] == u),
            Satuan::Miles => assert(k.anggota()[3] == u),
            Satuan::Kg => assert(k.anggota()[0] == u),
            Satuan::Gram => assert(k.anggota()[1] == u),
            Satuan::Lbs => assert(k.anggota()[2] == u),
            Satuan::Ounce => assert(k.anggota()[3] == u),
            Satuan::Liter => assert(k.anggota()[0] == u),
            Satuan::Gallon => assert(k.anggota()[1] == u),
            Satuan::Ml => assert(k.anggota()[2] == u),
            Satuan::Detik => assert(k.anggota()[0] == u),
            Satuan::Menit => assert(k.anggota()[1] == u),
            Satuan::Jam => assert(k.anggota()[2] == u),
            Satuan::Kmh => assert(k.anggota()[0] == u),
            Satuan::Mph => assert(k.anggota()[1] == u),
            Satuan::Ms => assert(k.anggota()[2] == u),
            Satuan::Byte => assert(k.anggota()[0] == u),
            Satuan::KB => assert(k.anggota()[1] == u),
            Satuan::MB => assert(k.anggota()[2] == u),
            Satuan::GB => assert(k.anggota()[3] == u),
        }
    } else if k.anggota().contains(u) {
        let i = choose|i: int| 0 <= i < k.anggota().len() && k.anggota()[i] == u;
        assert(k.anggota()[i].kategori_spec() == k);
    }
}

/// The catalog lists every unit, each once.
pub proof fn lemma_katalog_lengkap(u: Satuan)
    ensures
        katalog().contains(u),
        katalog().no_duplicates(),
{
    match u {
        Satuan::Celsius => assert(katalog()[0] == u),
        Satuan::Fahrenheit => assert(katalog()[1] == u),
        Satuan::Kelvin => assert(katalog()[2] == u),
        Satuan::Cm => assert(katalog()[3] == u),
        Satuan::Inch => assert(katalog()[4] == u),
        Satuan::Km => assert(katalog()[5] == u),
        Satuan::Miles => assert(katalog()[6] == u),
        Satuan::Kg => assert(katalog()[7] == u),
        Satuan::Gram => assert(katalog()[8] == u),
        Satuan::Lbs => assert(katalog()[9] == u),
        Satuan::Ounce => assert(katalog()[10] == u),
        Satuan::Liter => assert(katalog()[11] == u),
        Satuan::Gallon => assert(katalog()[12] == u),
        Satuan::Ml => assert(katalog()[13] == u),
        Satuan::Detik => assert(katalog()[14] == u),
        Satuan::Menit => assert(katalog()[15] == u),
        Satuan::Jam => assert(katalog()[16] == u),
        Satuan::Kmh => assert(katalog()[17] == u),
        Satuan::Mph => assert(katalog()[18] == u),
        Satuan::Ms => assert(katalog()[19] == u),
        Satuan::Byte => assert(katalog()[20] == u),
        Satuan::KB => assert(katalog()[21] == u),
        Satuan::MB => assert(katalog()[22] == u),
        Satuan::GB => assert(katalog()[23] == u),
    }
}

/// One accepted spelling of each unit other than its canonical name.
pub open spec fn alias_lain(u: Satuan) -> Seq<char> {
    match u {
        Satuan::Celsius => "c"@,
        Satuan::Fahrenheit => "f"@,
        Satuan::Kelvin => "k"@,
        Satuan::Cm => "centimeter"@,
        Satuan::Inch => "inches"@,
        Satuan::Km => "kilometer"@,
        Satuan::Miles => "mile"@,
        Satuan::Kg => "kilogram"@,
        Satuan::Gram => "g"@,
        Satuan::Lbs => "pound"@,
        Satuan::Ounce => "oz"@,
        Satuan::Liter => "l"@,
        Satuan::Gallon => "gal"@,
        Satuan::Ml => "milliliter"@,
        Satuan::Detik => "second"@,
        Satuan::Menit => "minute"@,
        Satuan::Jam => "hour"@,
        Satuan::Kmh => "kmh"@,
        Satuan::Mph => "mi/h"@,
        Satuan::Ms => "ms"@,
        Satuan::Byte => "b"@,
        Satuan::KB => "kilobyte"@,
        Satuan::MB => "megabyte"@,
        Satuan::GB => "gigabyte"@,
    }
}

/// The facts about the spellings of the catalog that tell them apart.
proof fn lemma_ejaan_berbeda()
    ensures
        "celsius"@.len() == 7,
        "celsius"@[0] == 'c',
        "celsius"@[1] == 'e',
        "celsius"@[2] == 'l',
        "celsius"@[3] == 's',
        "celsius"@[4] == 'i',
        "celsius"@[5] == 'u',
        "celsius"@[6] == 's',
        "c"@.len() == 1,
        "c"@[0] == 'c',
        "fahrenheit"@.len() == 10,
        "fahrenheit"@[0] == 'f',
        "fahrenheit"@[1] == 'a',
        "fahrenheit"@[2] == 'h',
        "fahrenheit"@[3] == 'r',
        "fahrenheit"@[4] == 'e',
        "fahrenheit"@[5] == 'n',
        "fahrenheit"@[6] == 'h',
        "fahrenheit"@[7] == 'e',
        "fahrenheit"@[8] == 'i',
        "fahrenheit"@[9] == 't',
        "f"@.len() == 1,
        "f"@[0] == 'f',
        "kelvin"@.len() == 6,
        "kelvin"@[0] == 'k',
        "kelvin"@[1] == 'e',
        "kelvin"@[2] == 'l',
        "kelvin"@[3] == 'v',
        "kelvin"@[4] == 'i',
        "kelvin"@[5] == 'n',
        "k"@.len() == 1,
        "k"@[0] == 'k',
        "cm"@.len() == 2,
        "cm"@[0] == 'c',
        "cm"@[1] == 'm',
        "centimeter"@.len() == 10,
        "centimeter"@[0] == 'c',
        "centimeter"@[1] == 'e',
        "centimeter"@[2] == 'n',
        "centimeter"@[3] == 't',
        "centimeter"@[4] == 'i',
        "centimeter"@[5] == 'm',
        "centimeter"@[6] == 'e',
        "centimeter"@[7] == 't',
        "centimeter"@[8] == 'e',
        "centimeter"@[9] == 'r',
        "inch"@.len() == 4,
        "inch"@[0] == 'i',
        "inch"@[1] == 'n',
        "inch"@[2] == 'c',
        "inch"@[3] == 'h',
        "inches"@.len() == 6,
        "inches"@[0] == 'i',
        "inches"@[1] == 'n',
        "inches"@[2] == 'c',
        "inches"@[3] == 'h',
        "inches"@[4] == 'e',
        "inches"@[5] == 's',
        "km"@.len() == 2,
        "km"@[0] == 'k',
        "km"@[1] == 'm',
        "kilometer"@.len() == 9,
        "kilometer"@[0] == 'k',
        "kilometer"@[1] == 'i',
        "kilometer"@[2] == 'l',
        "kilometer"@[3] == 'o',
        "kilometer"@[4] == 'm',
        "kilometer"@[5] == 'e',
        "kilometer"@[6] == 't',
        "kilometer"@[7] == 'e',
        "kilometer"@[8] == 'r',
        "miles"@.len() == 5,
        "miles"@[0] == 'm',
        "miles"@[1] == 'i',
        "miles"@[2] == 'l',
        "miles"@[3] == 'e',
        "miles"@[4] == 's',
        "mile"@.len() == 4,
        "mile"@[0] == 'm',
        "mile"@[1] == 'i',
        "mile"@[2] == 'l',
        "mile"@[3] == 'e',
        "mi"@.len() == 2,
        "mi"@[0] == 'm',
        "mi"@[1] == 'i',
        "kg"@.len() == 2,
        "kg"@[0] == 'k',
        "kg"@[1] == 'g',
        "kilogram"@.len() == 8,
        "kilogram"@[0] == 'k',
        "kilogram"@[1] == 'i',
        "kilogram"@[2] == 'l',
        "kilogram"@[3] == 'o',
        "kilogram"@[4] == 'g',
        "kilogram"@[5] == 'r',
        "kilogram"@[6] == 'a',
        "kilogram"@[7] == 'm',
        "gram"@.len() == 4,
        "gram"@[0] == 'g',
        "gram"@[1] == 'r',
        "gram"@[2] == 'a',
        "gram"@[3] == 'm',
        "g"@.len() == 1,
        "g"@[0] == 'g',
        "lbs"@.len() == 3,
        "lbs"@[0] == 'l',
        "lbs"@[1] == 'b',
        "lbs"@[2] == 's',
        "lb"@.len() == 2,
        "lb"@[0] == 'l',
        "lb"@[1] == 'b',
        "pound"@.len() == 5,
        "pound"@[0] == 'p',
        "pound"@[1] == 'o',
        "pound"@[2] == 'u',
        "pound"@[3] == 'n',
        "pound"@[4] == 'd',
        "ounce"@.len() == 5,
        "ounce"@[0] == 'o',
        "ounce"@[1] == 'u',
        "ounce"@[2] == 'n',
        "ounce"@[3] == 'c',
        "ounce"@[4] == 'e',
        "oz"@.len() == 2,
        "oz"@[0] == 'o',
        "oz"@[1] == 'z',
        "liter"@.len() == 5,
        "liter"@[0] == 'l',
        "liter"@[1] == 'i',
        "liter"@[2] == 't',
        "liter"@[3] == 'e',
        "liter"@[4] == 'r',
        "l"@.len() == 1,
        "l"@[0] == 'l',
        "gallon"@.len() == 6,
        "gallon"@[0] == 'g',
        "gallon"@[1] == 'a',
        "gallon"@[2] == 'l',
        "gallon"@[3] == 'l',
        "gallon"@[4] == 'o',
        "gallon"@[5] == 'n',
        "gal"@.len() == 3,
        "gal"@[0] == 'g',
        "gal"@[1] == 'a',
        "gal"@[2] == 'l',
        "ml"@.len() == 2,
        "ml"@[0] == 'm',
        "ml"@[1] == 'l',
        "milliliter"@.len() == 10,
        "milliliter"@[0] == 'm',
        "milliliter"@[1] == 'i',
        "milliliter"@[2] == 'l',
        "milliliter"@[3] == 'l',
        "milliliter"@[4] == 'i',
        "milliliter"@[5] == 'l',
        "milliliter"@[6] == 'i',
        "milliliter"@[7] == 't',
        "milliliter"@[8] == 'e',
        "milliliter"@[9] == 'r',
        "detik"@.len() == 5,
        "detik"@[0] == 'd',
        "detik"@[1] == 'e',
        "detik"@[2] == 't',
        "detik"@[3] == 'i',
        "detik"@[4] == 'k',
        "second"@.len() == 6,
        "second"@[0] == 's',
        "second"@[1] == 'e',
        "second"@[2] == 'c',
        "second"@[3] == 'o',
        "second"@[4] == 'n',
        "second"@[5] == 'd',
        "sec"@.len() == 3,
        "sec"@[0] == 's',
        "sec"@[1] == 'e',
        "sec"@[2] == 'c',
        "s"@.len() == 1,
        "s"@[0] == 's',
        "menit"@.len() == 5,
        "menit"@[0] == 'm',
        "menit"@[1] == 'e',
        "menit"@[2] == 'n',
        "menit"@[3] == 'i',
        "menit"@[4] == 't',
        "minute"@.len() == 6,
        "minute"@[0] == 'm',
        "minute"@[1] == 'i',
        "minute"@[2] == 'n',
        "minute"@[3] == 'u',
        "minute"@[4] == 't',
        "minute"@[5] == 'e',
        "min"@.len() == 3,
        "min"@[0] == 'm',
        "min"@[1] == 'i',
        "min"@[2] == 'n',
        "m"@.len() == 1,
        "m"@[0] == 'm',
        "jam"@.len() == 3,
        "jam"@[0] == 'j',
        "jam"@[1] == 'a',
        "jam"@[2] == 'm',
        "hour"@.len() == 4,
        "hour"@[0] == 'h',
        "hour"@[1] == 'o',
        "hour"@[2] == 'u',
        "hour"@[3] == 'r',
        "h"@.len() == 1,
        "h"@[0] == 'h',
        "km/h"@.len() == 4,
        "km/h"@[0] == 'k',
        "km/h"@[1] == 'm',
        "km/h"@[2] == '/',
        "km/h"@[3] == 'h',
        "kmh"@.len() == 3,
        "kmh"@[0] == 'k',
        "kmh"@[1] == 'm',
        "kmh"@[2] == 'h',
        "mph"@.len() == 3,
        "mph"@[0] == 'm',
        "mph"@[1] == 'p',
        "mph"@[2] == 'h',
        "mi/h"@.len() == 4,
        "mi/h"@[0] == 'm',
        "mi/h"@[1] == 'i',
        "mi/h"@[2] == '/',
        "mi/h"@[3] == 'h',
        "m/s"@.len() == 3,
        "m/s"@[0] == 'm',
        "m/s"@[1] == '/',
        "m/s"@[2] == 's',
        "ms"@.len() == 2,
        "ms"@[0] == 'm',
        "ms"@[1] == 's',
        "byte"@.len() == 4,
        "byte"@[0] == 'b',
        "byte"@[1] == 'y',
        "byte"@[2] == 't',
        "byte"@[3] == 'e',
        "b"@.len() == 1,
        "b"@[0] == 'b',
        "kb"@.len() == 2,
        "kb"@[0] == 'k',
        "kb"@[1] == 'b',
        "kilobyte"@.len() == 8,
        "kilobyte"@[0] == 'k',
        "kilobyte"@[1] == 'i',
        "kilobyte"@[2] == 'l',
        "kilobyte"@[3] == 'o',
        "kilobyte"@[4] == 'b',
        "kilobyte"@[5] == 'y',
        "kilobyte"@[6] == 't',
        "kilobyte"@[7] == 'e',
        "mb"@.len() == 2,
        "mb"@[0] == 'm',
        "mb"@[1] == 'b',
        "megabyte"@.len() == 8,
        "megabyte"@[0] == 'm',
        "megabyte"@[1] == 'e',
        "megabyte"@[2] == 'g',
        "megabyte"@[3] == 'a',
        "megabyte"@[4] == 'b',
        "megabyte"@[5] == 'y',
        "megabyte"@[6] == 't',
        "megabyte"@[7] == 'e',
        "gb"@.len() == 2,
        "gb"@[0] == 'g',
        "gb"@[1] == 'b',
        "gigabyte"@.len() == 8,
        "gigabyte"@[0] == 'g',
        "gigabyte"@[1] == 'i',
        "gigabyte"@[2] == 'g',
        "gigabyte"@[3] == 'a',
        "gigabyte"@[4] == 'b',
        "gigabyte"@[5] == 'y',
        "gigabyte"@[6] == 't',
        "gigabyte"@[7] == 'e',
{
    reveal_strlit("celsius");
    reveal_strlit("c");
    reveal_strlit("fahrenheit");
    reveal_strlit("f");
    reveal_strlit("kelvin");
    reveal_strlit("k");
    reveal_strlit("cm");
    reveal_strlit("centimeter");
    reveal_strlit("inch");
    reveal_strlit("inches");
    reveal_strlit("km");
    reveal_strlit("kilometer");
    reveal_strlit("miles");
    reveal_strlit("mile");
    reveal_strlit("mi");
    reveal_strlit("kg");
    reveal_strlit("kilogram");
    reveal_strlit("gram");
    reveal_strlit("g");
    reveal_strlit("lbs");
    reveal_strlit("lb");
    reveal_strlit("pound");
    reveal_strlit("ounce");
    reveal_strlit("oz");
    reveal_strlit("liter");
    reveal_strlit("l");
    reveal_strlit("gallon");
    reveal_strlit("gal");
    reveal_strlit("ml");
    reveal_strlit("milliliter");
    reveal_strlit("detik");
    reveal_strlit("second");
    reveal_strlit("sec");
    reveal_strlit("s");
    reveal_strlit("menit");
    reveal_strlit("minute");
    reveal_strlit("min");
    reveal_strlit("m");
    reveal_strlit("jam");
    reveal_strlit("hour");
    reveal_strlit("h");
    reveal_strlit("km/h");
    reveal_strlit("kmh");
    reveal_strlit("mph");
    reveal_strlit("mi/h");
    reveal_strlit("m/s");
    reveal_strlit("ms");
    reveal_strlit("byte");
    reveal_strlit("b");
    reveal_strlit("kb");
    reveal_strlit("kilobyte");
    reveal_strlit("mb");
    reveal_strlit("megabyte");
    reveal_strlit("gb");
    reveal_strlit("gigabyte");
}

/// Every unit is named by at least one spelling besides its canonical name.
#[verifier::spinoff_prover]
pub proof fn lemma_setiap_satuan_punya_alias(u: Satuan)
    ensures
        alias_lain(u) != u.nama_spec(),
        satuan_dari_alias(alias_lain(u)) == Some(u),
{
    lemma_ejaan_berbeda();
}

} // verus!
