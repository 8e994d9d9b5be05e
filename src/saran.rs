use vstd::prelude::*;
use crate::models::{katalog, Satuan};
use crate::teks::{ascii_kecil, daftar_huruf, huruf_kecil, huruf_kecil_dari, semua_ascii};

verus! {

/// The number of insertions, deletions and substitutions of single characters
/// that turn `a` into `b`, at the least.
pub open spec fn jarak_edit(a: Seq<char>, b: Seq<char>) -> nat
    decreases a.len() + b.len(),
{
    if a.len() == 0 {
        b.len()
    } else if b.len() == 0 {
        a.len()
    } else {
        let hapus = jarak_edit(a.drop_last(), b) + 1;
        let sisip = jarak_edit(a, b.drop_last()) + 1;
        let ganti = jarak_edit(a.drop_last(), b.drop_last()) + if a.last() == b.last() {
            0nat
        } else {
            1nat
        };
        vstd::math::min(vstd::math::min(hapus as int, sisip as int), ganti as int) as nat
    }
}

proof fn lemma_jarak_batas(a: Seq<char>, b: Seq<char>)
    ensures
        jarak_edit(a, b) <= vstd::math::max(a.len() as int, b.len() as int),
    decreases a.len() + b.len(),
{
    if a.len() > 0 && b.len() > 0 {
        lemma_jarak_batas(a.drop_last(), b.drop_last());
    }
}

/// The edit distance between two sequences of characters, by rows of the
/// usual table: row `i` holds the distances from the first `i` characters of
/// `a` to every prefix of `b`.
fn jarak_huruf(a: &Vec<char>, b: &Vec<char>) -> (r: usize)
    ensures
        r == jarak_edit(a@, b@),
{
    let n = a.len();
    let m = b.len();
    let mut baris: Vec<usize> = Vec::new();
    baris.push(0);
    let mut j: usize = 0;
    while j < m
        invariant
            m == b@.len(),
            j <= m,
            baris@.len() == j + 1,
            forall|k: int| 0 <= k <= j ==> baris@[k] == k,
        decreases m - j,
    {
        baris.push(j + 1);
        j = j + 1;
    }
    assert forall|k: int| 0 <= k <= m implies baris@[k] == jarak_edit(
        a@.take(0),
        b@.take(k),
    ) by {
        assert(a@.take(0).len() == 0);
    }
    let mut i: usize = 0;
    while i < n
        invariant
            n == a@.len(),
            m == b@.len(),
            i <= n,
            baris@.len() == m + 1,
            forall|k: int| 0 <= k <= m ==> baris@[k] == jarak_edit(a@.take(i as int), b@.take(k)),
        decreases n - i,
    {
        let mut baru: Vec<usize> = Vec::new();
        baru.push(i + 1);
        assert(b@.take(0).len() == 0);
        let mut j: usize = 0;
        while j < m
            invariant
                n == a@.len(),
                m == b@.len(),
                i < n,
                j <= m,
                baris@.len() == m + 1,
                baru@.len() == j + 1,
                forall|k: int|
                    0 <= k <= m ==> baris@[k] == jarak_edit(a@.take(i as int), b@.take(k)),
                forall|k: int|
                    0 <= k <= j ==> baru@[k] == jarak_edit(a@.take(i + 1), b@.take(k)),
            decreases m - j,
        {
            let biaya: usize = if a[i] == b[j] {
                0
            } else {
                1
            };
            let ghost aa = a@.take(i + 1);
            let ghost bb = b@.take(j + 1);
            assert(aa.drop_last() =~= a@.take(i as int));
            assert(bb.drop_last() =~= b@.take(j as int));
            assert(aa.last() == a@[i as int]);
            assert(bb.last() == b@[j as int]);
            proof {
                lemma_jarak_batas(a@.take(i as int), b@.take(j as int));
            }
            let hapus = baris[j + 1].saturating_add(1);
            let sisip = baru[j].saturating_add(1);
            let ganti = baris[j] + biaya;
            let terkecil = if hapus < sisip {
                hapus
            } else {
                sisip
            };
            let nilai = if terkecil < ganti {
                terkecil
            } else {
                ganti
            };
            baru.push(nilai);
            j = j + 1;
        }
        baris = baru;
        i = i + 1;
    }
    assert(a@.take(n as int) =~= a@);
    assert(b@.take(m as int) =~= b@);
    baris[m]
}

/// The Levenshtein distance between two texts, counted in characters.
pub fn hitung_jarak_levenshtein(s1: &str, s2: &str) -> (r: usize)
    ensures
        r == jarak_edit(s1@, s2@),
{
    let a = daftar_huruf(s1);
    let b = daftar_huruf(s2);
    jarak_huruf(&a, &b)
}

/// The text with every degree sign removed.
pub open spec fn tanpa_derajat(s: Seq<char>) -> Seq<char>
    decreases s.len(),
{
    if s.len() == 0 {
        s
    } else if s.last() == '°' {
        tanpa_derajat(s.drop_last())
    } else {
        tanpa_derajat(s.drop_last()).push(s.last())
    }
}

/// Removes every degree sign from a text.
pub fn hapus_derajat(s: &str) -> (r: String)
    ensures
        r@ == tanpa_derajat(s@),
{
    let n = s.unicode_len();
    let mut r = String::new();
    let mut i: usize = 0;
    while i < n
        invariant
            n == s@.len(),
            i <= n,
            r@ == tanpa_derajat(s@.take(i as int)),
        decreases n - i,
    {
        let c = s.get_char(i);
        assert(s@.take(i + 1).drop_last() =~= s@.take(i as int));
        if c != '°' {
            r.append(s.substring_char(i, i + 1));
            assert(r@ =~= tanpa_derajat(s@.take(i + 1)));
        }
        i = i + 1;
    }
    assert(s@.take(n as int) =~= s@);
    r
}

proof fn lemma_tanpa_derajat_ascii(s: Seq<char>)
    requires
        forall|i: int| 0 <= i < s.len() ==> (s[i] as u32) < 128 || s[i] == '°',
    ensures
        semua_ascii(tanpa_derajat(s)),
    decreases s.len(),
{
    if s.len() > 0 {
        lemma_tanpa_derajat_ascii(s.drop_last());
    }
}

/// The key under which a unit's symbol is compared: without its degree sign,
/// in lowercase.
pub open spec fn kunci_simbol(u: Satuan) -> Seq<char> {
    tanpa_derajat(u.simbol_spec()).map_values(|c: char| ascii_kecil(c))
}

proof fn lemma_simbol_ascii(u: Satuan)
    ensures
        semua_ascii(tanpa_derajat(u.simbol_spec())),
{
    match u {
        Satuan::Celsius => reveal_strlit("°C"),
        Satuan::Fahrenheit => reveal_strlit("°F"),
        Satuan::Kelvin => reveal_strlit("K"),
        Satuan::Cm => reveal_strlit("cm"),
        Satuan::Inch => reveal_strlit("inch"),
        Satuan::Km => reveal_strlit("km"),
        Satuan::Miles => reveal_strlit("miles"),
        Satuan::Kg => reveal_strlit("kg"),
        Satuan::Gram => reveal_strlit("g"),
        Satuan::Lbs => reveal_strlit("lbs"),
        Satuan::Ounce => reveal_strlit("oz"),
        Satuan::Liter => reveal_strlit("L"),
        Satuan::Gallon => reveal_strlit("gal"),
        Satuan::Ml => reveal_strlit("ml"),
        Satuan::Detik => reveal_strlit("s"),
        Satuan::Menit => reveal_strlit("min"),
        Satuan::Jam => reveal_strlit("h"),
        Satuan::Kmh => reveal_strlit("km/h"),
        Satuan::Mph => reveal_strlit("mph"),
        Satuan::Ms => reveal_strlit("m/s"),
        Satuan::Byte => reveal_strlit("B"),
        Satuan::KB => reveal_strlit("KB"),
        Satuan::MB => reveal_strlit("MB"),
        Satuan::GB => reveal_strlit("GB"),
    }
    lemma_tanpa_derajat_ascii(u.simbol_spec());
}

/// The number of candidates: the name, then the symbol, of every unit.
pub open spec fn banyak_calon() -> int {
    2 * katalog().len() as int
}

/// The unit of candidate `i`.
#[verifier::opaque]
pub open spec fn satuan_calon(i: int) -> Satuan {
    katalog()[i / 2]
}

/// The text of candidate `i`: the unit's name at even places, its symbol key at
/// odd ones.
#[verifier::opaque]
pub open spec fn teks_calon(i: int) -> Seq<char> {
    if i % 2 == 0 {
        satuan_calon(i).nama_spec()
    } else {
        kunci_simbol(satuan_calon(i))
    }
}

/// The suggestion for a lowercase input `q`: the name of the unit of the first
/// candidate at the least distance from `q`, where that distance is at most 3;
/// nothing where every candidate is further away.
pub open spec fn saran_tepat(q: Seq<char>, r: Option<Seq<char>>) -> bool {
    match r {
        None => forall|i: int| 0 <= i < banyak_calon() ==> jarak_edit(q, #[trigger] teks_calon(i)) > 3,
        Some(nama) => exists|i: int|
            {
                &&& 0 <= i < banyak_calon()
                &&& nama == satuan_calon(i).nama_spec()
                &&& jarak_edit(q, teks_calon(i)) <= 3
                &&& forall|j: int|
                    0 <= j < banyak_calon() ==> jarak_edit(q, teks_calon(i)) <= jarak_edit(
                        q,
                        #[trigger] teks_calon(j),
                    )
                &&& forall|j: int|
                    0 <= j < i ==> jarak_edit(q, teks_calon(i)) < jarak_edit(q, #[trigger] teks_calon(j))
            },
    }
}

pub open spec fn tampak(r: Option<String>) -> Option<Seq<char>> {
    match r {
        Some(s) => Some(s@),
        None => None,
    }
}

/// Among the first `c` candidates, `idx` is the first one at the least
/// distance from `q`, and that distance is `m`.
pub open spec fn terdekat_di_awal(q: Seq<char>, c: int, idx: int, m: int) -> bool {
    &&& 0 <= idx < c
    &&& m == jarak_edit(q, teks_calon(idx))
    &&& forall|j: int| 0 <= j < c ==> m <= jarak_edit(q, #[trigger] teks_calon(j))
    &&& forall|j: int| 0 <= j < idx ==> m < jarak_edit(q, #[trigger] teks_calon(j))
}

proof fn lemma_terdekat_lanjut(q: Seq<char>, c: int, idx: int, m: int, d: int) -> (r: (int, int))
    requires
        c > 0,
        terdekat_di_awal(q, c, idx, m),
        d == jarak_edit(q, teks_calon(c)),
    ensures
        d < m ==> r == (c, d),
        !(d < m) ==> r == (idx, m),
        terdekat_di_awal(q, c + 1, r.0, r.1),
{
    if d < m {
        (c, d)
    } else {
        (idx, m)
    }
}

proof fn lemma_calon(k: int)
    requires
        0 <= k < katalog().len(),
    ensures
        satuan_calon(2 * k) == katalog()[k],
        satuan_calon(2 * k + 1) == katalog()[k],
        teks_calon(2 * k) == katalog()[k].nama_spec(),
        teks_calon(2 * k + 1) == kunci_simbol(katalog()[k]),
{
    reveal(satuan_calon);
    reveal(teks_calon);
}

/// Suggests the unit name nearest to an input that is already in lowercase.
pub fn saran_dari_huruf_kecil(q: &str) -> (r: Option<String>)
    ensures
        saran_tepat(q@, tampak(r)),
{
    let daftar = Satuan::semua();
    let mut terbaik: Option<Satuan> = None;
    let mut jarak_min: usize = 0;
    let ghost mut idx: int = 0;
    let mut k: usize = 0;
    while k < daftar.len()
        invariant
            daftar@ == katalog(),
            k <= daftar@.len(),
            terbaik is None <==> k == 0,
            k > 0 ==> terdekat_di_awal(q@, 2 * k, idx, jarak_min as int),
            k > 0 ==> terbaik == Some(satuan_calon(idx)),
        decreases daftar@.len() - k,
    {
        let satuan = daftar[k];
        proof {
            lemma_calon(k as int);
        }
        let jarak = hitung_jarak_levenshtein(q, satuan.nama());
        if terbaik.is_none() {
            jarak_min = jarak;
            terbaik = Some(satuan);
            proof {
                idx = 2 * k as int;
            }
            assert(terdekat_di_awal(q@, 2 * k + 1, idx, jarak_min as int));
        } else {
            let ghost langkah = lemma_terdekat_lanjut(q@, 2 * k as int, idx, jarak_min as int, jarak as int);
            if jarak < jarak_min {
                jarak_min = jarak;
                terbaik = Some(satuan);
            }
            proof {
                idx = langkah.0;
            }
        }
        let polos = hapus_derajat(satuan.simbol());
        proof {
            lemma_simbol_ascii(satuan);
        }
        let kunci = huruf_kecil_dari(polos.as_str());
        assert(kunci@ == kunci_simbol(satuan));
        let jarak_simbol = hitung_jarak_levenshtein(q, kunci.as_str());
        let ghost langkah = lemma_terdekat_lanjut(q@, 2 * k + 1, idx, jarak_min as int, jarak_simbol as int);
        if jarak_simbol < jarak_min {
            jarak_min = jarak_simbol;
            terbaik = Some(satuan);
        }
        proof {
            idx = langkah.0;
        }
        k = k + 1;
    }
    match terbaik {
        Some(u) => {
            if jarak_min <= 3 {
                let r = Some(String::from_str(u.nama()));
                assert(saran_tepat(q@, tampak(r)));
                r
            } else {
                assert forall|i: int| 0 <= i < banyak_calon() implies jarak_edit(q@, #[trigger] teks_calon(i)) > 3 by {}
                None
            }
        },
        None => None,
    }
}

/// Suggests the unit name nearest to an input, compared in lowercase.
pub fn saran_satuan(masukan: &str) -> (r: Option<String>)
    ensures
        saran_tepat(huruf_kecil(masukan@), tampak(r)),
{
    let kecil = huruf_kecil_dari(masukan);
    saran_dari_huruf_kecil(kecil.as_str())
}

} // verus!
