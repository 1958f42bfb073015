//! The quota check of the bot: masking a phone number, and the report made from the
//! reply of the quota service.

use vstd::prelude::*;
use vstd::string::StringSliceAdditionalSpecFns;
use vstd::utf8::{decode_utf8, encode_utf8, is_char_boundary};

verus! {

broadcast use vstd::utf8::encode_utf8_decode_utf8;

/// `n` copies of `c`.
pub open spec fn repeat_char(c: char, n: nat) -> Seq<char> {
    Seq::new(n, |i: int| c)
}

/// A number can be masked: when its UTF-8 encoding has more than six bytes, its first
/// four bytes and its last two bytes are whole characters; and its length fits in `usize`.
pub open spec fn censorable(n: Seq<char>) -> bool {
    let b = encode_utf8(n);
    &&& b.len() <= usize::MAX
    &&& b.len() > 6 ==> is_char_boundary(b, 4) && is_char_boundary(b, b.len() - 2)
}

/// A number masked for display: when its UTF-8 encoding has more than six bytes, its
/// first four bytes, a `*` for each byte but the first four and the last two, then its
/// last two bytes; otherwise the number as it is.
pub open spec fn censored(n: Seq<char>) -> Seq<char> {
    let b = encode_utf8(n);
    if b.len() > 6 {
        decode_utf8(b.take(4)) + repeat_char('*', (b.len() - 6) as nat) + decode_utf8(
            b.skip(b.len() - 2),
        )
    } else {
        n
    }
}

/// Masks a phone number for display.
pub fn censor_number(n: &str) -> (r: String)
    requires
        censorable(n@),
    ensures
        r@ == censored(n@),
{
    let len = n.len();
    if len > 6 {
        let (head, _) = n.split_at(4);
        let (_, tail) = n.split_at(len - 2);
        assert(head.spec_bytes() =~= n.spec_bytes().take(4));
        assert(tail.spec_bytes() =~= n.spec_bytes().skip(len - 2));
        assert(decode_utf8(head.spec_bytes()) == head@);
        assert(decode_utf8(tail.spec_bytes()) == tail@);
        let mut r = head.to_owned();
        let mut k: usize = 0;
        while k < len - 6
            invariant
                len > 6,
                k <= len - 6,
                r@ == head@ + repeat_char('*', k as nat),
            decreases len - 6 - k,
        {
            r.append("*");
            proof {
                reveal_strlit("*");
            }
            k = k + 1;
            assert(r@ =~= head@ + repeat_char('*', k as nat));
        }
        r.append(tail);
        r
    } else {
        n.to_owned()
    }
}

/// One quota of a package, as the quota service reports it; a field is `None` when the
/// reply holds no string there.
pub struct QuotaItem {
    pub name: Option<String>,
    pub remaining: Option<String>,
}

/// One package of a line, as the quota service reports it.
pub struct QuotaPackage {
    pub name: Option<String>,
    pub expiry: Option<String>,
    /// `None` when the reply holds no array of quotas.
    pub quotas: Option<Vec<QuotaItem>>,
}

/// What the bot reads from the reply of the quota service.
pub struct QuotaReply {
    /// `success`, when it is a boolean.
    pub success: Option<bool>,
    /// `message`, when it is a string.
    pub message: Option<String>,
    /// `data.subs_info.msisdn`, when it is a string.
    pub msisdn: Option<String>,
    /// `data.subs_info.exp_date`, when it is a string.
    pub exp_date: Option<String>,
    /// `data.package_info.packages`, when it is an array.
    pub packages: Option<Vec<QuotaPackage>>,
}

/// The characters of an optional string, nothing for `None`.
pub open spec fn or_empty(o: Option<String>) -> Seq<char> {
    match o {
        Some(s) => s@,
        None => Seq::empty(),
    }
}

/// The line of a quota: written only when both its name and what remains are non-empty.
pub open spec fn item_text(q: QuotaItem) -> Seq<char> {
    let n = or_empty(q.name);
    let r = or_empty(q.remaining);
    if n.len() > 0 && r.len() > 0 {
        "   - "@ + n + ": <b>"@ + r + "</b>\n"@
    } else {
        Seq::empty()
    }
}

/// The lines of the quotas, in order.
pub open spec fn items_text(qs: Seq<QuotaItem>) -> Seq<char>
    decreases qs.len(),
{
    if qs.len() == 0 {
        Seq::empty()
    } else {
        items_text(qs.drop_last()) + item_text(qs.last())
    }
}

/// The name line of a package, when it has a name.
pub open spec fn package_name_text(p: QuotaPackage) -> Seq<char> {
    match p.name {
        Some(n) => "\u{1F4E6} <b>"@ + n@ + "</b>\n"@,
        None => Seq::empty(),
    }
}

/// The expiry line of a package, when it has one.
pub open spec fn package_expiry_text(p: QuotaPackage) -> Seq<char> {
    match p.expiry {
        Some(e) => "   Exp: "@ + e@ + "\n"@,
        None => Seq::empty(),
    }
}

/// The quota lines of a package, when it has quotas.
pub open spec fn package_quotas_text(p: QuotaPackage) -> Seq<char> {
    match p.quotas {
        Some(qs) => items_text(qs@),
        None => Seq::empty(),
    }
}

/// The block of a package: its name, its expiry, its quotas (each part only when present),
/// then an empty line.
pub open spec fn package_text(p: QuotaPackage) -> Seq<char> {
    package_name_text(p) + package_expiry_text(p) + package_quotas_text(p) + "\n"@
}

/// The blocks of the packages, in order.
pub open spec fn packages_text(ps: Seq<QuotaPackage>) -> Seq<char>
    decreases ps.len(),
{
    if ps.len() == 0 {
        Seq::empty()
    } else {
        packages_text(ps.drop_last()) + package_text(ps.last())
    }
}

/// The number that the report shows: the one the service reports, else the one asked for.
pub open spec fn reported_number(number: Seq<char>, r: QuotaReply) -> Seq<char> {
    match r.msisdn {
        Some(m) => m@,
        None => number,
    }
}

/// The report sent back for a quota check of `number`. On failure: the reason that the
/// service gives. Otherwise: the masked number, the expiry date of the line when known,
/// and the packages, or a note that there are none.
pub open spec fn quota_report(number: Seq<char>, r: QuotaReply) -> Seq<char> {
    let ok = match r.success {
        Some(b) => b,
        None => false,
    };
    if !ok {
        "\u{274C} Gagal mengecek kuota atau nomor tidak valid:\n"@ + match r.message {
            Some(m) => m@,
            None => "Unknown Error"@,
        }
    } else {
        "\u{1F4F1} <b>Nomor:</b> <code>"@ + censored(reported_number(number, r)) + "</code>\n"@
            + (match r.exp_date {
            Some(d) => "Masa Aktif: "@ + d@ + "\n\n"@,
            None => Seq::empty(),
        }) + (match r.packages {
            Some(ps) => packages_text(ps@),
            None => "Tidak ada paket aktif.\n"@,
        })
    }
}

/// The report can be written: the number it shows can be masked.
pub open spec fn reportable(number: Seq<char>, r: QuotaReply) -> bool {
    let ok = match r.success {
        Some(b) => b,
        None => false,
    };
    ok ==> censorable(reported_number(number, r))
}

/// Appends the line of one quota.
fn push_item(out: &mut String, q: &QuotaItem)
    ensures
        final(out)@ == old(out)@ + item_text(*q),
{
    let n = match &q.name {
        Some(s) => s.as_str(),
        None => "",
    };
    let r = match &q.remaining {
        Some(s) => s.as_str(),
        None => "",
    };
    assert(n@ == or_empty(q.name)) by {
        reveal_strlit("");
    }
    assert(r@ == or_empty(q.remaining)) by {
        reveal_strlit("");
    }
    if !n.is_empty() && !r.is_empty() {
        out.append("   - ");
        out.append(n);
        out.append(": <b>");
        out.append(r);
        out.append("</b>\n");
    } else {
        assert(old(out)@ + item_text(*q) =~= old(out)@);
    }
}

/// Appends the block of one package.
fn push_package(out: &mut String, p: &QuotaPackage)
    ensures
        final(out)@ == old(out)@ + package_text(*p),
{
    let ghost start = out@;
    let ghost name_part = package_name_text(*p);
    let ghost expiry_part = package_expiry_text(*p);
    let ghost quotas_part = package_quotas_text(*p);
    if let Some(n) = &p.name {
        out.append("\u{1F4E6} <b>");
        out.append(n.as_str());
        out.append("</b>\n");
    }
    assert(out@ =~= start + name_part);
    if let Some(e) = &p.expiry {
        out.append("   Exp: ");
        out.append(e.as_str());
        out.append("\n");
    }
    assert(out@ =~= start + name_part + expiry_part);
    if let Some(qs) = &p.quotas {
        let mut i: usize = 0;
        while i < qs.len()
            invariant
                i <= qs@.len(),
                out@ == start + name_part + expiry_part + items_text(qs@.take(i as int)),
            decreases qs@.len() - i,
        {
            push_item(out, &qs[i]);
            assert(qs@.take(i + 1).drop_last() =~= qs@.take(i as int));
            i = i + 1;
        }
        assert(qs@.take(qs@.len() as int) =~= qs@);
    } else {
        assert(items_text(Seq::<QuotaItem>::empty()) == Seq::<char>::empty());
    }
    assert(out@ =~= start + name_part + expiry_part + quotas_part);
    out.append("\n");
    assert(out@ =~= start + package_text(*p));
}

/// Writes the report of a quota check of `number` from the reply of the quota service.
pub fn format_quota_report(number: &str, r: &QuotaReply) -> (s: String)
    requires
        reportable(number@, *r),
    ensures
        s@ == quota_report(number@, *r),
{
    let ok = match r.success {
        Some(b) => b,
        None => false,
    };
    if !ok {
        let mut s = "\u{274C} Gagal mengecek kuota atau nomor tidak valid:\n".to_owned();
        match &r.message {
            Some(m) => s.append(m.as_str()),
            None => s.append("Unknown Error"),
        }
        return s;
    }
    let api_num = match &r.msisdn {
        Some(m) => m.as_str(),
        None => number,
    };
    let mut s = "\u{1F4F1} <b>Nomor:</b> <code>".to_owned();
    let masked = censor_number(api_num);
    s.append(masked.as_str());
    s.append("</code>\n");
    if let Some(d) = &r.exp_date {
        s.append("Masa Aktif: ");
        s.append(d.as_str());
        s.append("\n\n");
    }
    let ghost head = s@;
    match &r.packages {
        Some(ps) => {
            let mut i: usize = 0;
            while i < ps.len()
                invariant
                    i <= ps@.len(),
                    s@ == head + packages_text(ps@.take(i as int)),
                decreases ps@.len() - i,
            {
                push_package(&mut s, &ps[i]);
                assert(ps@.take(i + 1).drop_last() =~= ps@.take(i as int));
                i = i + 1;
            }
            assert(ps@.take(ps@.len() as int) =~= ps@);
        },
        None => s.append("Tidak ada paket aktif.\n"),
    }
    s
}

/// The address at which the quota service is asked about `number`.
pub fn quota_service_url(number: &str) -> (s: String)
    ensures
        s@ == "https://xl-ku.my.id/end.php?check=package&number="@ + number@ + "&version=2"@,
{
    let mut s = "https://xl-ku.my.id/end.php?check=package&number=".to_owned();
    s.append(number);
    s.append("&version=2");
    s
}

/// Masking keeps the length of a number in bytes, and keeps a number of at most six
/// bytes as it is.
pub proof fn lemma_censored_keeps_length(n: Seq<char>)
    requires
        censorable(n),
    ensures
        encode_utf8(censored(n)).len() == encode_utf8(n).len(),
        encode_utf8(n).len() <= 6 ==> censored(n) == n,
{
    let b = encode_utf8(n);
    if b.len() > 6 {
        let head = b.take(4);
        let tail = b.skip(b.len() - 2);
        let stars = repeat_char('*', (b.len() - 6) as nat);
        vstd::utf8::encode_utf8_valid_utf8(n);
        vstd::utf8::valid_utf8_split(b, 4);
        vstd::utf8::valid_utf8_split(b, b.len() - 2);
        assert(b.subrange(0, 4) =~= head);
        assert(b.subrange(b.len() - 2, b.len() as int) =~= tail);
        vstd::utf8::decode_utf8_encode_utf8(head);
        vstd::utf8::decode_utf8_encode_utf8(tail);
        lemma_encode_concat(decode_utf8(head), stars + decode_utf8(tail));
        lemma_encode_concat(stars, decode_utf8(tail));
        lemma_encode_stars(stars);
        assert(censored(n) =~= decode_utf8(head) + (stars + decode_utf8(tail)));
    }
}

/// The encoding of a concatenation is the concatenation of the encodings.
proof fn lemma_encode_concat(a: Seq<char>, b: Seq<char>)
    ensures
        encode_utf8(a + b) == encode_utf8(a) + encode_utf8(b),
    decreases a.len(),
{
    if a.len() > 0 {
        lemma_encode_concat(a.drop_first(), b);
        assert((a + b).drop_first() =~= a.drop_first() + b);
    }
}

/// A run of `*` encodes to one byte per character.
proof fn lemma_encode_stars(s: Seq<char>)
    requires
        forall|i: int| 0 <= i < s.len() ==> s[i] == '*',
    ensures
        encode_utf8(s).len() == s.len(),
    decreases s.len(),
{
    if s.len() > 0 {
        lemma_encode_stars(s.drop_first());
    }
}

/// The report lists every package, in order: appending a package to the reply appends
/// its block to the list, and a single package gives exactly its own block.
pub proof fn lemma_every_package_listed(ps: Seq<QuotaPackage>, p: QuotaPackage)
    ensures
        packages_text(ps.push(p)) == packages_text(ps) + package_text(p),
        packages_text(seq![p]) == package_text(p),
        packages_text(ps + seq![p]) == packages_text(ps) + package_text(p),
{
    assert(ps.push(p).drop_last() =~= ps);
    assert((ps + seq![p]) =~= ps.push(p));
    assert(seq![p].drop_last() =~= Seq::<QuotaPackage>::empty());
    assert(packages_text(Seq::<QuotaPackage>::empty()) == Seq::<char>::empty());
    assert(seq![p].last() == p);
    assert(packages_text(seq![p]) == packages_text(seq![p].drop_last()) + package_text(p));
    assert(package_text(p) =~= Seq::<char>::empty() + package_text(p));
}

/// Two replies that differ only in their packages give reports that differ only in the
/// part after the header: the package blocks are concatenated, so the report of
/// packages `a + b` is the report of `a` followed by the blocks of `b`.
pub proof fn lemma_packages_concatenate(a: Seq<QuotaPackage>, b: Seq<QuotaPackage>)
    ensures
        packages_text(a + b) == packages_text(a) + packages_text(b),
    decreases b.len(),
{
    if b.len() == 0 {
        assert(a + b =~= a);
        assert(packages_text(a) + Seq::<char>::empty() =~= packages_text(a));
    } else {
        lemma_packages_concatenate(a, b.drop_last());
        assert((a + b).drop_last() =~= a + b.drop_last());
        assert((a + b).last() == b.last());
        assert(packages_text(a) + packages_text(b.drop_last()) + package_text(b.last())
            =~= packages_text(a) + (packages_text(b.drop_last()) + package_text(b.last())));
    }
}

} // verus!
