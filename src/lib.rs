pub mod converter;
pub mod hukum;
pub mod keluaran;
pub mod models;
pub mod pesan;
pub mod riwayat;
pub mod saran;
pub mod teks;
