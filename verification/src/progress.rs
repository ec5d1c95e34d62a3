//! The progress lines shown while the service downloads or uploads a magnet.
use crate::text::{
    decimal, decimal_reads_back, decimal_text, digits_value, is_digit, pad_left, padded,
    padded_is_right_aligned,
};
use crate::types::DetailedMagnet;
use vstd::prelude::*;
use vstd::string::StringExecFns;

verus! {

/// The text `humansize::format_size(bytes, humansize::DECIMAL)` gives for
/// `bytes`: the size in SI units, such as `1 MB` for a million bytes.
pub uninterp spec fn decimal_size_text(bytes: u64) -> Seq<char>;

/// Calls `humansize::format_size` with the SI (`DECIMAL`) options. Claimed:
/// its text is `decimal_size_text(bytes)`, a function of `bytes` alone.
/// Not stated: which text that is; humansize computes it in floating point.
#[verifier::external_body]
fn format_decimal_size(bytes: u64) -> (text: String)
    ensures
        text@ == decimal_size_text(bytes),
{
    humansize::format_size(bytes, humansize::DECIMAL)
}

/// The line shown while the service downloads `m`:
/// `Downloading - {downloaded: >9}/{size: >9} ({speed: >9}/s, {seeders: >2} seeders)`.
pub open spec fn downloading_text(m: DetailedMagnet) -> Seq<char> {
    "Downloading - "@ + padded(decimal_size_text(m.downloaded), 9) + "/"@ + padded(
        decimal_size_text(m.size),
        9,
    ) + " ("@ + padded(decimal_size_text(m.download_speed), 9) + "/s, "@ + padded(
        decimal(m.seeders as nat),
        2,
    ) + " seeders)"@
}

/// The line shown while the service uploads `m`:
/// `Uploading - {uploaded: >9}/{size: >9} ({speed: >9}/s)`.
pub open spec fn uploading_text(m: DetailedMagnet) -> Seq<char> {
    "Uploading - "@ + padded(decimal_size_text(m.uploaded), 9) + "/"@ + padded(
        decimal_size_text(m.size),
        9,
    ) + " ("@ + padded(decimal_size_text(m.upload_speed), 9) + "/s)"@
}

/// Appends the size `bytes` in SI units, right-aligned in `width` characters.
fn push_size(line: &mut String, bytes: u64, width: usize)
    ensures
        final(line)@ == old(line)@ + padded(decimal_size_text(bytes), width as nat),
{
    let size = format_decimal_size(bytes);
    let field = pad_left(size.as_str(), width);
    line.append(field.as_str());
}

/// The progress line of a magnet being downloaded.
pub fn downloading_line(m: &DetailedMagnet) -> (line: String)
    ensures
        line@ == downloading_text(*m),
{
    let mut line = String::from_str("Downloading - ");
    push_size(&mut line, m.downloaded, 9);
    line.append("/");
    push_size(&mut line, m.size, 9);
    line.append(" (");
    push_size(&mut line, m.download_speed, 9);
    line.append("/s, ");
    let seeders = decimal_text(m.seeders);
    let field = pad_left(seeders.as_str(), 2);
    line.append(field.as_str());
    line.append(" seeders)");
    line
}

/// The progress line of a magnet being uploaded.
pub fn uploading_line(m: &DetailedMagnet) -> (line: String)
    ensures
        line@ == uploading_text(*m),
{
    let mut line = String::from_str("Uploading - ");
    push_size(&mut line, m.uploaded, 9);
    line.append("/");
    push_size(&mut line, m.size, 9);
    line.append(" (");
    push_size(&mut line, m.upload_speed, 9);
    line.append("/s)");
    line
}

/// The downloading line shows, in this order, the downloaded size, the
/// total size and the speed, each right-aligned in 9 characters, then the
/// number of seeders in full: just before the closing ` seeders)` stand the
/// digits of `m.seeders`, which read back as `m.seeders`, preceded by a space.
pub proof fn downloading_line_shows_seeders(m: DetailedMagnet)
    ensures
        downloading_text(m) == "Downloading - "@ + padded(decimal_size_text(m.downloaded), 9)
            + "/"@ + padded(decimal_size_text(m.size), 9) + " ("@ + padded(
            decimal_size_text(m.download_speed),
            9,
        ) + "/s, "@ + padded(decimal(m.seeders as nat), 2) + " seeders)"@,
        ({
            let t = downloading_text(m);
            let k = decimal(m.seeders as nat).len() as int;
            let digits = t.subrange(t.len() - 9 - k, t.len() - 9);
            &&& t.len() >= 10 + k
            &&& t.subrange(t.len() - 9, t.len() as int) == " seeders)"@
            &&& forall|i: int| 0 <= i < digits.len() ==> is_digit(#[trigger] digits[i])
            &&& digits_value(digits) == m.seeders
            &&& t[t.len() - 10 - k] == ' '
        }),
{
    reveal_strlit("/s, ");
    reveal_strlit(" seeders)");
    let d = decimal(m.seeders as nat);
    let f = padded(d, 2);
    let a = "Downloading - "@ + padded(decimal_size_text(m.downloaded), 9) + "/"@ + padded(
        decimal_size_text(m.size),
        9,
    ) + " ("@ + padded(decimal_size_text(m.download_speed), 9) + "/s, "@;
    let tail = " seeders)"@;
    let t = a + f + tail;
    assert(t == downloading_text(m));
    decimal_reads_back(m.seeders as nat);
    padded_is_right_aligned(d, 2);
    let k = d.len() as int;
    assert(tail.len() == 9);
    assert(a.len() >= 4);
    assert(a[a.len() - 1] == ' ');
    assert(t.subrange(t.len() - 9, t.len() as int) =~= tail);
    assert(t.subrange(t.len() - 9 - k, t.len() - 9) =~= f.subrange(f.len() - k, f.len() as int));
    if f.len() > k {
        assert(t[t.len() - 10 - k] == f[f.len() - k - 1]);
    } else {
        assert(t[t.len() - 10 - k] == a[a.len() - 1]);
    }
}

/// The uploading line shows, in this order, the uploaded size, the total
/// size and the upload speed, each right-aligned in 9 characters.
pub proof fn uploading_line_layout(m: DetailedMagnet)
    ensures
        uploading_text(m) == "Uploading - "@ + padded(decimal_size_text(m.uploaded), 9) + "/"@
            + padded(decimal_size_text(m.size), 9) + " ("@ + padded(
            decimal_size_text(m.upload_speed),
            9,
        ) + "/s)"@,
{
}

} // verus!
