use vstd::prelude::*;

verus! {

/// What reading the history file gave.
pub enum BacaanRiwayat<T> {
    /// There is no history file.
    TidakAda,
    /// The file exists but could not be opened.
    GagalBuka,
    /// The file was read but does not hold a list of records.
    Rusak,
    /// The records stored, oldest first.
    Terbaca(Vec<T>),
}

/// What to do before writing the history back.
pub struct RencanaSimpan<T> {
    /// Move the unreadable file aside to its backup path first.
    pub cadangkan: bool,
    /// The whole list to write, oldest first.
    pub daftar: Vec<T>,
}

/// The records kept from a reading: all of them where it succeeded, none
/// otherwise.
pub open spec fn catatan_lama<T>(b: BacaanRiwayat<T>) -> Seq<T> {
    match b {
        BacaanRiwayat::Terbaca(v) => v@,
        _ => Seq::empty(),
    }
}

/// Adds a record to the history as it was read. A file that does not parse is
/// backed up and the history starts again empty; one that is missing or cannot
/// be opened counts as empty.
pub fn susun_riwayat<T>(bacaan: BacaanRiwayat<T>, baru: T) -> (r: RencanaSimpan<T>)
    ensures
        r.daftar@ == catatan_lama(bacaan).push(baru),
        r.cadangkan == (bacaan is Rusak),
{
    let ghost lama = catatan_lama(bacaan);
    let (cadangkan, mut daftar) = match bacaan {
        BacaanRiwayat::Terbaca(v) => (false, v),
        BacaanRiwayat::Rusak => (true, Vec::new()),
        _ => (false, Vec::new()),
    };
    assert(daftar@ =~= lama);
    daftar.push(baru);
    RencanaSimpan { cadangkan, daftar }
}

} // verus!
