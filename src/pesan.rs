use vstd::prelude::*;
use crate::converter::KesalahanKonversi;
use crate::models::{satuan_dari_alias, Satuan};
use crate::saran::{saran_satuan, saran_tepat, tampak};
use crate::teks::huruf_kecil;

verus! {

/// Which side of a conversion a unit text was given for.
#[derive(Debug, Clone, Copy, PartialEq, Eq, Structural)]
pub enum PeranSatuan {
    Asal,
    Tujuan,
}

pub open spec fn pesan_kesalahan(e: KesalahanKonversi) -> Seq<char> {
    match e {
        KesalahanKonversi::NilaiTidakValid => "Nilai input tidak valid (NaN atau Infinity)"@,
        KesalahanKonversi::KategoriBerbeda { dari, ke } => "Tidak dapat mengonversi satuan yang berbeda kategori: ["@
            + dari.kategori_spec().nama_spec() + "] "@ + dari.nama_spec() + " -> ["@
            + ke.kategori_spec().nama_spec() + "] "@ + ke.nama_spec(),
        KesalahanKonversi::DiLuarDomain => "Nilai Kelvin tidak boleh negatif (< 0)"@,
    }
}

impl KesalahanKonversi {
    /// The message shown to the user for this refusal.
    pub fn pesan(&self) -> (r: String)
        ensures
            r@ == pesan_kesalahan(*self),
    {
        match self {
            KesalahanKonversi::NilaiTidakValid => String::from_str(
                "Nilai input tidak valid (NaN atau Infinity)",
            ),
            KesalahanKonversi::KategoriBerbeda { dari, ke } => {
                let mut r = String::from_str(
                    "Tidak dapat mengonversi satuan yang berbeda kategori: [",
                );
                r.append(dari.kategori().nama());
                r.append("] ");
                r.append(dari.nama());
                r.append(" -> [");
                r.append(ke.kategori().nama());
                r.append("] ");
                r.append(ke.nama());
                r
            },
            KesalahanKonversi::DiLuarDomain => String::from_str(
                "Nilai Kelvin tidak boleh negatif (< 0)",
            ),
        }
    }
}

pub open spec fn pesan_tidak_dikenali_spec(peran: PeranSatuan, teks: Seq<char>, saran: Option<Seq<char>>) -> Seq<char> {
    let awal = match peran {
        PeranSatuan::Asal => "Satuan asal '"@,
        PeranSatuan::Tujuan => "Satuan tujuan '"@,
    };
    let pokok = awal + teks + "' tidak dikenali."@;
    match saran {
        Some(s) => pokok + " Apakah maksud Anda '"@ + s + "'?"@,
        None => pokok,
    }
}

/// The message for a unit text that names no unit, with the suggestion if
/// there is one.
pub fn pesan_tidak_dikenali(peran: PeranSatuan, teks: &str, saran: &Option<String>) -> (r: String)
    ensures
        r@ == pesan_tidak_dikenali_spec(peran, teks@, tampak(*saran)),
{
    let mut r = match peran {
        PeranSatuan::Asal => String::from_str("Satuan asal '"),
        PeranSatuan::Tujuan => String::from_str("Satuan tujuan '"),
    };
    r.append(teks);
    r.append("' tidak dikenali.");
    match saran {
        Some(s) => {
            r.append(" Apakah maksud Anda '");
            r.append(s.as_str());
            r.append("'?");
        },
        None => {},
    }
    r
}

/// Resolves a unit text; where it names no unit, the error is the message for
/// it, with the nearest unit name suggested where one is close enough.
pub fn selesaikan_satuan(peran: PeranSatuan, teks: &str) -> (r: Result<Satuan, String>)
    ensures
        satuan_dari_alias(huruf_kecil(teks@)) matches Some(u) ==> r == Ok::<Satuan, String>(u),
        satuan_dari_alias(huruf_kecil(teks@)) is None ==> (r matches Err(m) && exists|s: Option<
            Seq<char>,
        >|
            saran_tepat(huruf_kecil(teks@), s) && m@ == pesan_tidak_dikenali_spec(peran, teks@, s)),
{
    match Satuan::dari_str(teks) {
        Some(u) => Ok(u),
        None => {
            let saran = saran_satuan(teks);
            Err(pesan_tidak_dikenali(peran, teks, &saran))
        },
    }
}

} // verus!
