use sshws::quota::{
    censor_number, format_quota_report, quota_service_url, QuotaItem, QuotaPackage, QuotaReply,
};

#[test]
fn long_numbers_are_masked() {
    assert_eq!(censor_number("081234567890"), "0812******90");
    assert_eq!(censor_number("1234567"), "1234*67");
}

#[test]
fn short_numbers_are_kept() {
    assert_eq!(censor_number("123456"), "123456");
    assert_eq!(censor_number(""), "");
}

#[test]
fn masking_counts_bytes() {
    // "é" takes two bytes: 8 bytes in all, so two are masked.
    assert_eq!(censor_number("0812é90"), "0812**90");
    assert_eq!(censor_number("0812é90").len(), "0812é90".len());
}

fn s(x: &str) -> Option<String> {
    Some(x.to_string())
}

#[test]
fn failed_check_reports_reason() {
    let r = QuotaReply { success: Some(false), message: s("nomor salah"), msisdn: None, exp_date: None, packages: None };
    assert_eq!(
        format_quota_report("0812", &r),
        "\u{274C} Gagal mengecek kuota atau nomor tidak valid:\nnomor salah"
    );
    let r2 = QuotaReply { success: None, message: None, msisdn: None, exp_date: None, packages: None };
    assert_eq!(
        format_quota_report("0812", &r2),
        "\u{274C} Gagal mengecek kuota atau nomor tidak valid:\nUnknown Error"
    );
}

#[test]
fn report_lists_packages() {
    let r = QuotaReply {
        success: Some(true),
        message: None,
        msisdn: s("6281234567890"),
        exp_date: s("2025-01-01"),
        packages: Some(vec![QuotaPackage {
            name: s("Xtra"),
            expiry: s("2025-02-01"),
            quotas: Some(vec![
                QuotaItem { name: s("Kuota"), remaining: s("10 GB") },
                QuotaItem { name: s("Bonus"), remaining: None },
                QuotaItem { name: s(""), remaining: s("1 GB") },
            ]),
        }]),
    };
    assert_eq!(
        format_quota_report("0812", &r),
        "\u{1F4F1} <b>Nomor:</b> <code>6281*******90</code>\nMasa Aktif: 2025-01-01\n\n\u{1F4E6} <b>Xtra</b>\n   Exp: 2025-02-01\n   - Kuota: <b>10 GB</b>\n\n"
    );
}

#[test]
fn report_without_packages() {
    let r = QuotaReply { success: Some(true), message: None, msisdn: None, exp_date: None, packages: None };
    assert_eq!(
        format_quota_report("081234567890", &r),
        "\u{1F4F1} <b>Nomor:</b> <code>0812******90</code>\nTidak ada paket aktif.\n"
    );
    let bare = QuotaReply {
        success: Some(true),
        message: None,
        msisdn: None,
        exp_date: None,
        packages: Some(vec![QuotaPackage { name: None, expiry: None, quotas: None }]),
    };
    assert_eq!(
        format_quota_report("0812", &bare),
        "\u{1F4F1} <b>Nomor:</b> <code>0812</code>\n\n"
    );
}

#[test]
fn service_url() {
    assert_eq!(
        quota_service_url("0812"),
        "https://xl-ku.my.id/end.php?check=package&number=0812&version=2"
    );
}
