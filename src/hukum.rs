use vstd::prelude::*;
use crate::converter::{
    dari_antara, hasil_konversi, menuju_antara, JenisNilai, KesalahanKonversi, Operasi,
};
use crate::models::{Kategori, Satuan};

verus! {

/// An exact rational number `atas / bawah`; it is well formed when `bawah > 0`.
pub struct Pecahan {
    pub atas: int,
    pub bawah: int,
}

pub open spec fn pangkat_sepuluh(n: nat) -> int
    decreases n,
{
    if n == 0 {
        1
    } else {
        10 * pangkat_sepuluh((n - 1) as nat)
    }
}

/// Two rationals denote the same number.
pub open spec fn setara(a: Pecahan, b: Pecahan) -> bool {
    a.atas * b.bawah == b.atas * a.bawah
}

pub open spec fn operasi_sah(o: Operasi) -> bool {
    match o {
        Operasi::Tambah(d) => d.angka > 0,
        Operasi::Kurang(d) => d.angka > 0,
        Operasi::Kali(d) => d.angka > 0,
        Operasi::Bagi(d) => d.angka > 0,
    }
}

pub open spec fn semua_sah(ops: Seq<Operasi>) -> bool {
    forall|i: int| 0 <= i < ops.len() ==> operasi_sah(#[trigger] ops[i])
}

/// The exact effect of one step on a rational.
pub open spec fn langkah_eksak(o: Operasi, x: Pecahan) -> Pecahan {
    match o {
        Operasi::Tambah(d) => Pecahan {
            atas: x.atas * pangkat_sepuluh(d.skala as nat) + d.angka * x.bawah,
            bawah: x.bawah * pangkat_sepuluh(d.skala as nat),
        },
        Operasi::Kurang(d) => Pecahan {
            atas: x.atas * pangkat_sepuluh(d.skala as nat) - d.angka * x.bawah,
            bawah: x.bawah * pangkat_sepuluh(d.skala as nat),
        },
        Operasi::Kali(d) => Pecahan {
            atas: x.atas * d.angka,
            bawah: x.bawah * pangkat_sepuluh(d.skala as nat),
        },
        Operasi::Bagi(d) => Pecahan {
            atas: x.atas * pangkat_sepuluh(d.skala as nat),
            bawah: x.bawah * d.angka,
        },
    }
}

/// The exact effect of a sequence of steps, applied first to last.
pub open spec fn terapkan(ops: Seq<Operasi>, x: Pecahan) -> Pecahan
    decreases ops.len(),
{
    if ops.len() == 0 {
        x
    } else {
        terapkan(ops.drop_first(), langkah_eksak(ops[0], x))
    }
}

pub open spec fn kebalikan_operasi(o: Operasi) -> Operasi {
    match o {
        Operasi::Tambah(d) => Operasi::Kurang(d),
        Operasi::Kurang(d) => Operasi::Tambah(d),
        Operasi::Kali(d) => Operasi::Bagi(d),
        Operasi::Bagi(d) => Operasi::Kali(d),
    }
}

/// The steps that undo `ops`: each inverted, in reverse order.
pub open spec fn kebalikan(ops: Seq<Operasi>) -> Seq<Operasi>
    decreases ops.len(),
{
    if ops.len() == 0 {
        Seq::empty()
    } else {
        kebalikan(ops.drop_first()).push(kebalikan_operasi(ops[0]))
    }
}

proof fn lemma_pangkat_positif(n: nat)
    ensures
        pangkat_sepuluh(n) > 0,
    decreases n,
{
    if n > 0 {
        lemma_pangkat_positif((n - 1) as nat);
    }
}

proof fn lemma_setara_transitif(a: Pecahan, b: Pecahan, c: Pecahan)
    requires
        b.bawah > 0,
        setara(a, b),
        setara(b, c),
    ensures
        setara(a, c),
{
    assert(a.atas * c.bawah * b.bawah == c.atas * a.bawah * b.bawah) by (nonlinear_arith)
        requires
            a.atas * b.bawah == b.atas * a.bawah,
            b.atas * c.bawah == c.atas * b.bawah,
    ;
    assert(a.atas * c.bawah == c.atas * a.bawah) by (nonlinear_arith)
        requires
            a.atas * c.bawah * b.bawah == c.atas * a.bawah * b.bawah,
            b.bawah > 0,
    ;
}

proof fn lemma_langkah_sah(o: Operasi, x: Pecahan)
    requires
        operasi_sah(o),
        x.bawah > 0,
    ensures
        langkah_eksak(o, x).bawah > 0,
{
    let d = match o {
        Operasi::Tambah(d) => d,
        Operasi::Kurang(d) => d,
        Operasi::Kali(d) => d,
        Operasi::Bagi(d) => d,
    };
    let p = pangkat_sepuluh(d.skala as nat);
    lemma_pangkat_positif(d.skala as nat);
    assert(x.bawah * p > 0) by (nonlinear_arith)
        requires
            x.bawah > 0,
            p > 0,
    ;
    assert(x.bawah * d.angka > 0) by (nonlinear_arith)
        requires
            x.bawah > 0,
            d.angka > 0,
    ;
}

proof fn lemma_affine_kongruen(x: int, xb: int, y: int, yb: int, p: int, a: int)
    requires
        x * yb == y * xb,
    ensures
        (x * p + a * xb) * (yb * p) == (y * p + a * yb) * (xb * p),
{
    vstd::arithmetic::mul::lemma_mul_is_distributive_add_other_way(yb * p, x * p, a * xb);
    vstd::arithmetic::mul::lemma_mul_is_distributive_add_other_way(xb * p, y * p, a * yb);
    assert((x * p) * (yb * p) == (x * yb) * (p * p)) by (nonlinear_arith);
    assert((y * p) * (xb * p) == (y * xb) * (p * p)) by (nonlinear_arith);
    assert((a * xb) * (yb * p) == (a * yb) * (xb * p)) by (nonlinear_arith);
}

proof fn lemma_langkah_kongruen(o: Operasi, x: Pecahan, y: Pecahan)
    requires
        setara(x, y),
    ensures
        setara(langkah_eksak(o, x), langkah_eksak(o, y)),
{
    match o {
        Operasi::Tambah(d) => {
            let p = pangkat_sepuluh(d.skala as nat);
            lemma_affine_kongruen(x.atas, x.bawah, y.atas, y.bawah, p, d.angka as int);
        },
        Operasi::Kurang(d) => {
            let p = pangkat_sepuluh(d.skala as nat);
            let a = d.angka as int;
            lemma_affine_kongruen(x.atas, x.bawah, y.atas, y.bawah, p, -a);
            assert((-a) * x.bawah == -(a * x.bawah)) by (nonlinear_arith);
            assert((-a) * y.bawah == -(a * y.bawah)) by (nonlinear_arith);
        },
        Operasi::Kali(d) => {
            let p = pangkat_sepuluh(d.skala as nat);
            let a = d.angka as int;
            assert((x.atas * a) * (y.bawah * p) == (y.atas * a) * (x.bawah * p)) by (nonlinear_arith)
                requires
                    x.atas * y.bawah == y.atas * x.bawah,
            ;
        },
        Operasi::Bagi(d) => {
            let p = pangkat_sepuluh(d.skala as nat);
            let a = d.angka as int;
            assert((x.atas * p) * (y.bawah * a) == (y.atas * p) * (x.bawah * a)) by (nonlinear_arith)
                requires
                    x.atas * y.bawah == y.atas * x.bawah,
            ;
        },
    }
}

proof fn lemma_langkah_balik(o: Operasi, x: Pecahan)
    ensures
        setara(langkah_eksak(kebalikan_operasi(o), langkah_eksak(o, x)), x),
{
    match o {
        Operasi::Tambah(d) => {
            let p = pangkat_sepuluh(d.skala as nat);
            let a = d.angka as int;
            assert(((x.atas * p + a * x.bawah) * p - a * (x.bawah * p)) * x.bawah == x.atas * (
            x.bawah * p * p)) by (nonlinear_arith);
        },
        Operasi::Kurang(d) => {
            let p = pangkat_sepuluh(d.skala as nat);
            let a = d.angka as int;
            assert(((x.atas * p - a * x.bawah) * p + a * (x.bawah * p)) * x.bawah == x.atas * (
            x.bawah * p * p)) by (nonlinear_arith);
        },
        Operasi::Kali(d) => {
            let p = pangkat_sepuluh(d.skala as nat);
            let a = d.angka as int;
            assert((x.atas * a * p) * x.bawah == x.atas * (x.bawah * p * a)) by (nonlinear_arith);
        },
        Operasi::Bagi(d) => {
            let p = pangkat_sepuluh(d.skala as nat);
            let a = d.angka as int;
            assert((x.atas * p * a) * x.bawah == x.atas * (x.bawah * a * p)) by (nonlinear_arith);
        },
    }
}

proof fn lemma_terapkan_sah(ops: Seq<Operasi>, x: Pecahan)
    requires
        semua_sah(ops),
        x.bawah > 0,
    ensures
        terapkan(ops, x).bawah > 0,
    decreases ops.len(),
{
    if ops.len() > 0 {
        assert(operasi_sah(ops[0]));
        lemma_langkah_sah(ops[0], x);
        assert(semua_sah(ops.drop_first())) by {
            assert forall|i: int| 0 <= i < ops.drop_first().len() implies operasi_sah(
                #[trigger] ops.drop_first()[i],
            ) by {
                assert(ops.drop_first()[i] == ops[i + 1]);
            }
        }
        lemma_terapkan_sah(ops.drop_first(), langkah_eksak(ops[0], x));
    }
}

proof fn lemma_terapkan_kongruen(ops: Seq<Operasi>, x: Pecahan, y: Pecahan)
    requires
        setara(x, y),
    ensures
        setara(terapkan(ops, x), terapkan(ops, y)),
    decreases ops.len(),
{
    if ops.len() > 0 {
        lemma_langkah_kongruen(ops[0], x, y);
        lemma_terapkan_kongruen(ops.drop_first(), langkah_eksak(ops[0], x), langkah_eksak(ops[0], y));
    }
}

proof fn lemma_terapkan_gabung(p: Seq<Operasi>, q: Seq<Operasi>, x: Pecahan)
    ensures
        terapkan(p + q, x) == terapkan(q, terapkan(p, x)),
    decreases p.len(),
{
    if p.len() == 0 {
        assert(p + q =~= q);
    } else {
        assert((p + q).drop_first() =~= p.drop_first() + q);
        assert((p + q)[0] == p[0]);
        lemma_terapkan_gabung(p.drop_first(), q, langkah_eksak(p[0], x));
    }
}

/// Applying a sequence of steps and then its inverse gives back the same
/// number, for every well-formed rational.
pub proof fn lemma_kebalikan_membatalkan(ops: Seq<Operasi>, x: Pecahan)
    requires
        semua_sah(ops),
        x.bawah > 0,
    ensures
        setara(terapkan(kebalikan(ops), terapkan(ops, x)), x),
    decreases ops.len(),
{
    if ops.len() > 0 {
        let o = ops[0];
        let rest = ops.drop_first();
        assert(operasi_sah(o));
        assert(semua_sah(rest)) by {
            assert forall|i: int| 0 <= i < rest.len() implies operasi_sah(#[trigger] rest[i]) by {
                assert(rest[i] == ops[i + 1]);
            }
        }
        let x1 = langkah_eksak(o, x);
        lemma_langkah_sah(o, x);
        let t = terapkan(rest, x1);
        lemma_kebalikan_membatalkan(rest, x1);
        let z = terapkan(kebalikan(rest), t);
        lemma_terapkan_gabung(kebalikan(rest), seq![kebalikan_operasi(o)], t);
        assert(kebalikan(ops) == kebalikan(rest) + seq![kebalikan_operasi(o)]);
        assert(seq![kebalikan_operasi(o)].drop_first() =~= Seq::<Operasi>::empty());
        assert(terapkan(seq![kebalikan_operasi(o)], z) == langkah_eksak(kebalikan_operasi(o), z))
            by {
            reveal_with_fuel(terapkan, 2);
        }
        lemma_langkah_kongruen(kebalikan_operasi(o), z, x1);
        lemma_langkah_balik(o, x);
        lemma_langkah_sah(kebalikan_operasi(o), x1);
        lemma_setara_transitif(
            langkah_eksak(kebalikan_operasi(o), z),
            langkah_eksak(kebalikan_operasi(o), x1),
            x,
        );
    }
}

/// For every unit, the steps out of the intermediate unit undo the steps into
/// it, and the reverse; no step multiplies or divides by zero.
pub proof fn lemma_tabel_saling_balik(u: Satuan)
    ensures
        dari_antara(u) == kebalikan(menuju_antara(u)),
        menuju_antara(u) == kebalikan(dari_antara(u)),
        semua_sah(menuju_antara(u)),
        semua_sah(dari_antara(u)),
{
    reveal_with_fuel(kebalikan, 4);
    assert(dari_antara(u) =~= kebalikan(menuju_antara(u)));
    assert(menuju_antara(u) =~= kebalikan(dari_antara(u)));
}

/// Converting a finite value from a unit to itself needs no step, so the value
/// is returned as it is, also where it lies outside the unit's bound.
pub proof fn lemma_identitas(jenis: JenisNilai, u: Satuan, x: Pecahan)
    requires
        jenis != JenisNilai::TakHingga,
    ensures
        hasil_konversi(jenis, u, u) == Ok::<Seq<Operasi>, KesalahanKonversi>(Seq::empty()),
        terapkan(Seq::empty(), x) == x,
{
}

/// Converting from `a` to `b` and then from `b` back to `a`, where both are
/// accepted, gives back the starting number in exact arithmetic.
pub proof fn lemma_bolak_balik(
    jenis_awal: JenisNilai,
    jenis_antara: JenisNilai,
    a: Satuan,
    b: Satuan,
    pergi: Seq<Operasi>,
    pulang: Seq<Operasi>,
    x: Pecahan,
)
    requires
        hasil_konversi(jenis_awal, a, b) == Ok::<Seq<Operasi>, KesalahanKonversi>(pergi),
        hasil_konversi(jenis_antara, b, a) == Ok::<Seq<Operasi>, KesalahanKonversi>(pulang),
        x.bawah > 0,
    ensures
        setara(terapkan(pulang, terapkan(pergi, x)), x),
{
    if a != b {
        lemma_tabel_saling_balik(a);
        lemma_tabel_saling_balik(b);
        let y = terapkan(menuju_antara(a), x);
        lemma_terapkan_sah(menuju_antara(a), x);
        lemma_terapkan_gabung(menuju_antara(a), dari_antara(b), x);
        lemma_terapkan_gabung(menuju_antara(b), dari_antara(a), terapkan(pergi, x));
        let z = terapkan(dari_antara(b), y);
        lemma_terapkan_sah(dari_antara(b), y);
        let w = terapkan(menuju_antara(b), z);
        // back in the intermediate unit, at the same number as before
        lemma_kebalikan_membatalkan(dari_antara(b), y);
        lemma_terapkan_kongruen(dari_antara(a), w, y);
        lemma_kebalikan_membatalkan(menuju_antara(a), x);
        lemma_terapkan_sah(dari_antara(a), y);
        lemma_setara_transitif(terapkan(dari_antara(a), w), terapkan(dari_antara(a), y), x);
    }
}

/// A finite value is never converted between units of different categories.
pub proof fn lemma_beda_kategori(jenis: JenisNilai, dari: Satuan, ke: Satuan)
    requires
        jenis != JenisNilai::TakHingga,
        dari.kategori_spec() != ke.kategori_spec(),
    ensures
        hasil_konversi(jenis, dari, ke) == Err::<Seq<Operasi>, KesalahanKonversi>(
            KesalahanKonversi::KategoriBerbeda { dari, ke },
        ),
{
}

/// A negative value in Kelvin is refused when converted to another
/// temperature unit.
pub proof fn lemma_kelvin_negatif(ke: Satuan)
    requires
        ke.kategori_spec() == Kategori::Suhu,
        ke != Satuan::Kelvin,
    ensures
        hasil_konversi(JenisNilai::Negatif, Satuan::Kelvin, ke) == Err::<
            Seq<Operasi>,
            KesalahanKonversi,
        >(KesalahanKonversi::DiLuarDomain),
{
}

/// A value that is not a number, or is infinite, is refused for every pair of
/// units.
pub proof fn lemma_nilai_tidak_valid(dari: Satuan, ke: Satuan)
    ensures
        hasil_konversi(JenisNilai::TakHingga, dari, ke) == Err::<Seq<Operasi>, KesalahanKonversi>(
            KesalahanKonversi::NilaiTidakValid,
        ),
{
}

} // verus!
