use minirustcli::converter::KesalahanKonversi;
use minirustcli::models::Satuan;
use minirustcli::pesan::{pesan_tidak_dikenali, selesaikan_satuan, PeranSatuan};

#[test]
fn conversion_error_messages() {
    assert_eq!(
        KesalahanKonversi::NilaiTidakValid.pesan(),
        "Nilai input tidak valid (NaN atau Infinity)"
    );
    assert_eq!(
        KesalahanKonversi::KategoriBerbeda { dari: Satuan::Celsius, ke: Satuan::Kg }.pesan(),
        "Tidak dapat mengonversi satuan yang berbeda kategori: [suhu] celsius -> [berat] kg"
    );
    assert_eq!(
        KesalahanKonversi::DiLuarDomain.pesan(),
        "Nilai Kelvin tidak boleh negatif (< 0)"
    );
}

#[test]
fn unknown_unit_message_with_and_without_hint() {
    assert_eq!(
        pesan_tidak_dikenali(PeranSatuan::Asal, "celcius", &Some("celsius".to_string())),
        "Satuan asal 'celcius' tidak dikenali. Apakah maksud Anda 'celsius'?"
    );
    assert_eq!(
        pesan_tidak_dikenali(PeranSatuan::Tujuan, "xyz123", &None),
        "Satuan tujuan 'xyz123' tidak dikenali."
    );
}

#[test]
fn resolving_unit_text() {
    assert_eq!(selesaikan_satuan(PeranSatuan::Asal, "KG"), Ok(Satuan::Kg));
    assert_eq!(
        selesaikan_satuan(PeranSatuan::Asal, "celcius"),
        Err("Satuan asal 'celcius' tidak dikenali. Apakah maksud Anda 'celsius'?".to_string())
    );
    assert_eq!(
        selesaikan_satuan(PeranSatuan::Tujuan, "xyz123"),
        Err("Satuan tujuan 'xyz123' tidak dikenali.".to_string())
    );
}
