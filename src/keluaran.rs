use vstd::prelude::*;
use crate::models::{satuan_dari_alias, Satuan};
use crate::saran::tampak;
use crate::teks::huruf_kecil;

verus! {

/// The units of a sequence other than `a` and `b`, in their order.
pub open spec fn tanpa_dua(s: Seq<Satuan>, a: Satuan, b: Satuan) -> Seq<Satuan>
    decreases s.len(),
{
    if s.len() == 0 {
        s
    } else if s.last() == a || s.last() == b {
        tanpa_dua(s.drop_last(), a, b)
    } else {
        tanpa_dua(s.drop_last(), a, b).push(s.last())
    }
}

/// The other units of the source unit's category, shown beside a result: all
/// members but the source and the target.
pub fn satuan_lain(dari: Satuan, ke: Satuan) -> (r: Vec<Satuan>)
    ensures
        r@ == tanpa_dua(dari.kategori_spec().anggota(), dari, ke),
{
    let anggota = dari.kategori().satuan_satuan();
    let mut r: Vec<Satuan> = Vec::new();
    let mut i: usize = 0;
    while i < anggota.len()
        invariant
            i <= anggota@.len(),
            r@ == tanpa_dua(anggota@.take(i as int), dari, ke),
        decreases anggota@.len() - i,
    {
        let u = anggota[i];
        assert(anggota@.take(i + 1).drop_last() =~= anggota@.take(i as int));
        if u != dari && u != ke {
            r.push(u);
        }
        i = i + 1;
    }
    assert(anggota@.take(anggota@.len() as int) =~= anggota@);
    r
}

/// Texts joined with `", "` between them.
pub open spec fn gabung(s: Seq<Seq<char>>) -> Seq<char>
    decreases s.len(),
{
    if s.len() == 0 {
        Seq::empty()
    } else if s.len() == 1 {
        s[0]
    } else {
        gabung(s.drop_last()) + ", "@ + s.last()
    }
}

/// `"<value> <symbol>"` for each equivalent value and its unit.
pub open spec fn setara_teks(nilai: Seq<String>, satuan: Seq<Satuan>) -> Seq<Seq<char>> {
    Seq::new(nilai.len(), |i: int| nilai[i]@ + " "@ + satuan[i].simbol_spec())
}

pub open spec fn baris_hasil_spec(
    nilai: Seq<char>,
    dari: Satuan,
    hasil: Seq<char>,
    ke: Satuan,
    lainnya: Seq<Seq<char>>,
) -> Seq<char> {
    let pokok = nilai + " "@ + dari.simbol_spec() + " = "@ + hasil + " "@ + ke.simbol_spec();
    if lainnya.len() == 0 {
        pokok
    } else {
        pokok + " ("@ + gabung(lainnya) + ")"@
    }
}

/// The line printed for a successful conversion: the value and result with
/// their symbols, then the value in the other units of the category, if any.
/// Numbers come already written out.
pub fn baris_hasil(
    nilai: &str,
    dari: Satuan,
    hasil: &str,
    ke: Satuan,
    nilai_lain: &Vec<String>,
    satuan_lain: &Vec<Satuan>,
) -> (r: String)
    requires
        nilai_lain@.len() == satuan_lain@.len(),
    ensures
        r@ == baris_hasil_spec(nilai@, dari, hasil@, ke, setara_teks(nilai_lain@, satuan_lain@)),
{
    let mut r = String::from_str(nilai);
    r.append(" ");
    r.append(dari.simbol());
    r.append(" = ");
    r.append(hasil);
    r.append(" ");
    r.append(ke.simbol());
    let ghost pokok = r@;
    let ghost semua = setara_teks(nilai_lain@, satuan_lain@);
    if nilai_lain.len() > 0 {
        r.append(" (");
        let mut i: usize = 0;
        while i < nilai_lain.len()
            invariant
                nilai_lain@.len() == satuan_lain@.len(),
                semua == setara_teks(nilai_lain@, satuan_lain@),
                i <= nilai_lain@.len(),
                i == 0 ==> r@ == pokok + " ("@,
                i > 0 ==> r@ == pokok + " ("@ + gabung(semua.take(i as int)),
            decreases nilai_lain@.len() - i,
        {
            assert(semua.take(i + 1).drop_last() =~= semua.take(i as int));
            if i > 0 {
                r.append(", ");
            }
            r.append(nilai_lain[i].as_str());
            r.append(" ");
            r.append(satuan_lain[i].simbol());
            proof {
                if i == 0 {
                    assert(semua.take(1) =~= seq![semua[0]]);
                }
            }
            i = i + 1;
        }
        assert(semua.take(semua.len() as int) =~= semua);
        r.append(")");
    }
    r
}

/// The symbol of the unit that a stored text names, or the text itself where
/// it names none.
pub open spec fn simbol_atau_teks_spec(teks: Seq<char>) -> Seq<char> {
    match satuan_dari_alias(huruf_kecil(teks)) {
        Some(u) => u.simbol_spec(),
        None => teks,
    }
}

pub fn simbol_atau_teks(teks: &str) -> (r: String)
    ensures
        r@ == simbol_atau_teks_spec(teks@),
{
    match Satuan::dari_str(teks) {
        Some(u) => String::from_str(u.simbol()),
        None => String::from_str(teks),
    }
}

pub open spec fn baris_riwayat_spec(
    nomor: Seq<char>,
    masukan: Seq<char>,
    asal: Seq<char>,
    tujuan: Seq<char>,
    keluaran: Option<Seq<char>>,
    pesan_error: Option<Seq<char>>,
) -> Option<Seq<char>> {
    match pesan_error {
        Some(e) => Some(
            nomor + ". [GAGAL] "@ + masukan + " "@ + asal + " -> "@ + tujuan + " (Error: "@ + e + ")"@,
        ),
        None => match keluaran {
            Some(k) => Some(
                nomor + ". "@ + masukan + " "@ + simbol_atau_teks_spec(asal) + " = "@ + k + " "@
                    + simbol_atau_teks_spec(tujuan),
            ),
            None => None,
        },
    }
}

pub open spec fn tampak_str(o: Option<&str>) -> Option<Seq<char>> {
    match o {
        Some(s) => Some(s@),
        None => None,
    }
}

/// The line listing one stored record: a failed attempt with its message, or
/// a result with the units shown by symbol where they resolve. A record with
/// neither gives no line. Numbers come already written out.
pub fn baris_riwayat(
    nomor: &str,
    masukan: &str,
    asal: &str,
    tujuan: &str,
    keluaran: Option<&str>,
    pesan_error: Option<&str>,
) -> (r: Option<String>)
    ensures
        baris_riwayat_spec(nomor@, masukan@, asal@, tujuan@, tampak_str(keluaran), tampak_str(pesan_error))
            == tampak(r),
{
    match pesan_error {
        Some(e) => {
            let mut r = String::from_str(nomor);
            r.append(". [GAGAL] ");
            r.append(masukan);
            r.append(" ");
            r.append(asal);
            r.append(" -> ");
            r.append(tujuan);
            r.append(" (Error: ");
            r.append(e);
            r.append(")");
            Some(r)
        },
        None => match keluaran {
            Some(k) => {
                let mut r = String::from_str(nomor);
                r.append(". ");
                r.append(masukan);
                r.append(" ");
                let sa = simbol_atau_teks(asal);
                r.append(sa.as_str());
                r.append(" = ");
                r.append(k);
                r.append(" ");
                let st = simbol_atau_teks(tujuan);
                r.append(st.as_str());
                Some(r)
            },
            None => None,
        },
    }
}

} // verus!
