//! 16-bit mono PCM recordings as WAV files.

use crate::error::CommandError;
use crate::speech;
use vstd::prelude::*;

verus! {

/// The size of the header in front of the samples.
pub const HEADER_SIZE: usize = 44;

/// A 16-bit number, low byte first.
pub open spec fn le16(n: nat) -> Seq<u8> {
    seq![(n % 256) as u8, (n / 256 % 256) as u8]
}

/// A 32-bit number, low byte first.
pub open spec fn le32(n: nat) -> Seq<u8> {
    seq![
        (n % 256) as u8,
        (n / 256 % 256) as u8,
        (n / 65536 % 256) as u8,
        (n / 16777216 % 256) as u8,
    ]
}

/// A sample as the unsigned number with the same 16 bits.
pub open spec fn sample_bits(s: i16) -> nat {
    if s < 0 {
        (s + 65536) as nat
    } else {
        s as nat
    }
}

/// The header of a recording of `n` samples: the RIFF chunk, the format (PCM, one channel, 16
/// bits) and the head of the data chunk.
#[verifier::opaque]
pub open spec fn header(n: nat, rate: nat) -> Seq<u8> {
    seq![0x52u8, 0x49, 0x46, 0x46] + le32(36 + 2 * n) + seq![0x57u8, 0x41, 0x56, 0x45] + seq![
        0x66u8,
        0x6D,
        0x74,
        0x20,
    ] + le32(16) + le16(1) + le16(1) + le32(rate) + le32(2 * rate) + le16(2) + le16(16) + seq![
        0x64u8,
        0x61,
        0x74,
        0x61,
    ] + le32(2 * n)
}

/// The samples, each low byte first.
pub open spec fn payload(pcm: Seq<i16>) -> Seq<u8> {
    Seq::new(2 * pcm.len(), |i: int| le16(sample_bits(pcm[i / 2]))[i % 2])
}

/// A recording as a file.
pub open spec fn wav_bytes(pcm: Seq<i16>, rate: nat) -> Seq<u8> {
    header(pcm.len(), rate) + payload(pcm)
}

fn push16(out: &mut Vec<u8>, n: u16)
    ensures
        final(out)@ == old(out)@ + le16(n as nat),
{
    out.push((n % 256) as u8);
    out.push((n / 256) as u8);
    assert(out@ =~= old(out)@ + le16(n as nat));
}

fn push32(out: &mut Vec<u8>, n: u32)
    ensures
        final(out)@ == old(out)@ + le32(n as nat),
{
    out.push((n % 256) as u8);
    out.push((n / 256 % 256) as u8);
    out.push((n / 65536 % 256) as u8);
    out.push((n / 16777216) as u8);
    assert(out@ =~= old(out)@ + le32(n as nat));
}

fn push_tag(out: &mut Vec<u8>, a: u8, b: u8, c: u8, d: u8)
    ensures
        final(out)@ == old(out)@ + seq![a, b, c, d],
{
    out.push(a);
    out.push(b);
    out.push(c);
    out.push(d);
    assert(out@ =~= old(out)@ + seq![a, b, c, d]);
}

/// Write a recording down as a standard 16-bit mono PCM file.
pub fn write_wav(pcm_data: &Vec<i16>, sample_rate: u32) -> (out: Vec<u8>)
    requires
        36 + 2 * pcm_data@.len() <= u32::MAX,
        2 * sample_rate <= u32::MAX,
    ensures
        out@ == wav_bytes(pcm_data@, sample_rate as nat),
{
    let n: u32 = pcm_data.len() as u32;
    let mut out: Vec<u8> = Vec::new();
    push_tag(&mut out, 0x52, 0x49, 0x46, 0x46);
    push32(&mut out, 36 + 2 * n);
    push_tag(&mut out, 0x57, 0x41, 0x56, 0x45);
    push_tag(&mut out, 0x66, 0x6D, 0x74, 0x20);
    push32(&mut out, 16);
    push16(&mut out, 1);
    push16(&mut out, 1);
    push32(&mut out, sample_rate);
    push32(&mut out, 2 * sample_rate);
    push16(&mut out, 2);
    push16(&mut out, 16);
    push_tag(&mut out, 0x64, 0x61, 0x74, 0x61);
    push32(&mut out, 2 * n);
    let ghost head = header(pcm_data@.len(), sample_rate as nat);
    assert(out@ =~= head) by {
        reveal(header);
    }
    let mut i: usize = 0;
    assert(out@ =~= head + payload(pcm_data@.take(0)));
    while i < pcm_data.len()
        invariant
            i <= pcm_data@.len(),
            out@ == head + payload(pcm_data@.take(i as int)),
        decreases pcm_data@.len() - i,
    {
        let s: i16 = pcm_data[i];
        let bits: u16 = if s < 0 {
            (s as i32 + 65536) as u16
        } else {
            s as u16
        };
        let ghost before = out@;
        push16(&mut out, bits);
        proof {
            let p = payload(pcm_data@.take(i as int));
            let q = payload(pcm_data@.take(i + 1));
            assert(q =~= p + le16(bits as nat)) by {
                assert forall|k: int| 0 <= k < q.len() implies q[k] == (p + le16(bits as nat))[k] by {
                    if k < p.len() {
                        assert(pcm_data@.take(i + 1)[k / 2] == pcm_data@.take(i as int)[k / 2]);
                    }
                }
            }
            assert(out@ =~= head + q);
        }
        i = i + 1;
    }
    assert(pcm_data@.take(i as int) =~= pcm_data@);
    out
}

/// The 16-bit number at a position.
pub open spec fn u16_at(b: Seq<u8>, i: int) -> int {
    b[i] + 256 * b[i + 1]
}

/// The 32-bit number at a position.
pub open spec fn u32_at(b: Seq<u8>, i: int) -> int {
    b[i] + 256 * b[i + 1] + 65536 * b[i + 2] + 16777216 * b[i + 3]
}

/// The four bytes at a position.
pub open spec fn tag_at(b: Seq<u8>, i: int) -> Seq<u8> {
    b.subrange(i, i + 4)
}

/// The sample with these 16 bits.
pub open spec fn sample_of(bits: int) -> int {
    if bits < 32768 {
        bits
    } else {
        bits - 65536
    }
}

/// What is wrong with a file that should hold a 16 kHz mono 16-bit recording, if anything; of
/// several faults the first in this order.
pub open spec fn wav_fault(b: Seq<u8>) -> Option<Seq<char>> {
    if b.len() < HEADER_SIZE {
        Some("录音文件损坏（头部不完整）"@)
    } else if tag_at(b, 0) != seq![0x52u8, 0x49, 0x46, 0x46] || tag_at(b, 8) != seq![
        0x57u8,
        0x41,
        0x56,
        0x45,
    ] {
        Some("录音文件损坏（非 WAV 格式）"@)
    } else if u16_at(b, 20) != 1 || u16_at(b, 22) != 1 || u32_at(b, 24) != 16000 || u16_at(b, 34)
        != 16 {
        Some("录音格式不支持（需要 16kHz 单声道 16-bit PCM）"@)
    } else if tag_at(b, 36) != seq![0x64u8, 0x61, 0x74, 0x61] {
        Some("录音文件损坏（缺少 data 块）"@)
    } else if (b.len() - HEADER_SIZE) % 2 != 0 {
        Some("录音文件损坏（数据长度为奇数）"@)
    } else {
        None
    }
}

/// The samples behind the header.
pub open spec fn samples_in(b: Seq<u8>) -> Seq<int> {
    Seq::new(
        ((b.len() - HEADER_SIZE) / 2) as nat,
        |i: int| sample_of(u16_at(b, HEADER_SIZE + 2 * i)),
    )
}

fn has_tag(v: &Vec<u8>, at: usize, a: u8, b: u8, c: u8, d: u8) -> (r: bool)
    requires
        at + 4 <= v.len(),
    ensures
        r == (tag_at(v@, at as int) == seq![a, b, c, d]),
{
    let r = v[at] == a && v[at + 1] == b && v[at + 2] == c && v[at + 3] == d;
    proof {
        let t = tag_at(v@, at as int);
        assert(t[0] == v@[at as int] && t[1] == v@[at + 1] && t[2] == v@[at + 2] && t[3] == v@[at
            + 3]);
        if r {
            assert(t =~= seq![a, b, c, d]);
        }
    }
    r
}

fn read16(v: &Vec<u8>, at: usize) -> (r: u32)
    requires
        at + 2 <= v.len(),
    ensures
        r == u16_at(v@, at as int),
        r < 65536,
{
    v[at] as u32 + 256 * v[at + 1] as u32
}

fn read32(v: &Vec<u8>, at: usize) -> (r: u64)
    requires
        at + 4 <= v.len(),
    ensures
        r == u32_at(v@, at as int),
{
    v[at] as u64 + 256 * v[at + 1] as u64 + 65536 * v[at + 2] as u64 + 16777216 * v[at + 3] as u64
}

/// Read a 16 kHz mono 16-bit PCM file: its samples and its duration in milliseconds.
pub fn read_wav_samples(bytes: &Vec<u8>) -> (r: Result<(Vec<i16>, u32), CommandError>)
    ensures
        match r {
            Ok((samples, duration_ms)) => {
                &&& wav_fault(bytes@) is None
                &&& samples@.len() == samples_in(bytes@).len()
                &&& forall|i: int|
                    0 <= i < samples@.len() ==> #[trigger] samples@[i] == samples_in(bytes@)[i]
                &&& duration_ms == speech::clip_ms(samples@.len())
            },
            Err(e) => wav_fault(bytes@) is Some && e.says(
                "VALIDATION"@,
                wav_fault(bytes@)->0,
            ),
        },
{
    if bytes.len() < HEADER_SIZE {
        return Err(CommandError::validation("录音文件损坏（头部不完整）"));
    }
    if !has_tag(bytes, 0, 0x52, 0x49, 0x46, 0x46) || !has_tag(bytes, 8, 0x57, 0x41, 0x56, 0x45) {
        return Err(CommandError::validation("录音文件损坏（非 WAV 格式）"));
    }
    if read16(bytes, 20) != 1 || read16(bytes, 22) != 1 || read32(bytes, 24) != 16000 || read16(
        bytes,
        34,
    ) != 16 {
        return Err(
            CommandError::validation("录音格式不支持（需要 16kHz 单声道 16-bit PCM）"),
        );
    }
    if !has_tag(bytes, 36, 0x64, 0x61, 0x74, 0x61) {
        return Err(CommandError::validation("录音文件损坏（缺少 data 块）"));
    }
    let size: usize = bytes.len() - HEADER_SIZE;
    if size % 2 != 0 {
        return Err(CommandError::validation("录音文件损坏（数据长度为奇数）"));
    }
    let n: usize = size / 2;
    let mut samples: Vec<i16> = Vec::new();
    let mut i: usize = 0;
    while i < n
        invariant
            i <= n,
            bytes.len() == HEADER_SIZE + 2 * n,
            samples@.len() == i,
            forall|k: int| 0 <= k < i ==> #[trigger] samples@[k] == samples_in(bytes@)[k],
        decreases n - i,
    {
        let bits: u32 = read16(bytes, HEADER_SIZE + 2 * i);
        let s: i16 = if bits < 32768 {
            bits as i16
        } else {
            (bits as i32 - 65536) as i16
        };
        samples.push(s);
        i = i + 1;
    }
    let duration_ms: u32 = speech::clip_duration_ms(samples.len());
    Ok((samples, duration_ms))
}

#[verifier::rlimit(40)]
#[verifier::spinoff_prover]
proof fn header_reads_back(n: nat)
    ensures
        header(n, 16000).len() == 44,
        tag_at(header(n, 16000), 0) == seq![0x52u8, 0x49, 0x46, 0x46],
        tag_at(header(n, 16000), 8) == seq![0x57u8, 0x41, 0x56, 0x45],
        tag_at(header(n, 16000), 36) == seq![0x64u8, 0x61, 0x74, 0x61],
        u16_at(header(n, 16000), 20) == 1,
        u16_at(header(n, 16000), 22) == 1,
        u32_at(header(n, 16000), 24) == 16000,
        u16_at(header(n, 16000), 34) == 16,
{
    reveal(header);
    let h = header(n, 16000);
    assert(h.len() == 44);
    assert(tag_at(h, 0) =~= seq![0x52u8, 0x49, 0x46, 0x46]);
    assert(tag_at(h, 8) =~= seq![0x57u8, 0x41, 0x56, 0x45]);
    assert(tag_at(h, 36) =~= seq![0x64u8, 0x61, 0x74, 0x61]);
    assert(h[20] == 1 && h[21] == 0 && h[22] == 1 && h[23] == 0);
    assert(h[24] == 128 && h[25] == 62 && h[26] == 0 && h[27] == 0);
    assert(h[34] == 16 && h[35] == 0);
}

proof fn sample_reads_back(pcm: Seq<i16>, rate: nat, i: int)
    requires
        header(pcm.len(), rate).len() == 44,
        0 <= i < pcm.len(),
    ensures
        sample_of(u16_at(wav_bytes(pcm, rate), 44 + 2 * i)) == pcm[i],
{
    let b = wav_bytes(pcm, rate);
    let p = payload(pcm);
    assert(b[44 + 2 * i] == p[2 * i]);
    assert(b[44 + 2 * i + 1] == p[2 * i + 1]);
    assert((2 * i) / 2 == i && (2 * i + 1) / 2 == i);
    let n = sample_bits(pcm[i]);
    assert(p[2 * i] == n % 256 && p[2 * i + 1] == n / 256);
    assert(u16_at(b, 44 + 2 * i) == n);
}

/// Reading undoes writing: a 16 kHz recording that was written down is accepted and gives its
/// samples back.
pub proof fn reading_undoes_writing(pcm: Seq<i16>)
    requires
        36 + 2 * pcm.len() <= u32::MAX,
    ensures
        wav_fault(wav_bytes(pcm, 16000)) is None,
        samples_in(wav_bytes(pcm, 16000)).len() == pcm.len(),
        forall|i: int|
            0 <= i < pcm.len() ==> #[trigger] samples_in(wav_bytes(pcm, 16000))[i] == pcm[i],
{
    let b = wav_bytes(pcm, 16000);
    let h = header(pcm.len(), 16000);
    header_reads_back(pcm.len());
    assert(forall|i: int| 0 <= i < 44 ==> b[i] == h[i]);
    assert(tag_at(b, 0) =~= tag_at(h, 0));
    assert(tag_at(b, 8) =~= tag_at(h, 8));
    assert(tag_at(b, 36) =~= tag_at(h, 36));
    assert forall|i: int| 0 <= i < pcm.len() implies #[trigger] samples_in(b)[i] == pcm[i] by {
        sample_reads_back(pcm, 16000, i);
    }
}

/// A recording that was written at 16 kHz is read back sample for sample, with its duration.
pub proof fn a_written_recording_is_read_back(
    pcm: Vec<i16>,
    rate: u32,
    bytes: Vec<u8>,
    r: Result<(Vec<i16>, u32), CommandError>,
)
    requires
        call_ensures(write_wav, (&pcm, rate), bytes),
        rate == 16000,
        36 + 2 * pcm@.len() <= u32::MAX,
        call_ensures(read_wav_samples, (&bytes,), r),
    ensures
        r is Ok,
        r->Ok_0.0@ == pcm@,
        16 * r->Ok_0.1 <= pcm@.len() < 16 * (r->Ok_0.1 + 1),
{
    reading_undoes_writing(pcm@);
    let back = r->Ok_0.0@;
    assert forall|i: int| 0 <= i < pcm@.len() implies back[i] == pcm@[i] by {
        assert(samples_in(bytes@)[i] == pcm@[i]);
    }
    assert(back =~= pcm@);
}

/// A file begins with a header of 44 bytes that tells its size, its rate, and that it holds one
/// channel of 16-bit samples; the samples follow, low byte first.
pub proof fn a_file_tells_its_format(pcm: Vec<i16>, rate: u32, b: Vec<u8>, i: int)
    requires
        call_ensures(write_wav, (&pcm, rate), b),
        36 + 2 * pcm@.len() <= u32::MAX,
        2 * rate <= u32::MAX,
        0 <= i < pcm@.len(),
    ensures
        b@.len() == 44 + 2 * pcm@.len(),
        b@[0] == 0x52 && b@[1] == 0x49 && b@[2] == 0x46 && b@[3] == 0x46,
        b@[8] == 0x57 && b@[9] == 0x41 && b@[10] == 0x56 && b@[11] == 0x45,
        b@[12] == 0x66 && b@[13] == 0x6D && b@[14] == 0x74 && b@[15] == 0x20,
        b@[36] == 0x64 && b@[37] == 0x61 && b@[38] == 0x74 && b@[39] == 0x61,
        u32_at(b@, 4) == 36 + 2 * pcm@.len(),
        u32_at(b@, 16) == 16,
        u16_at(b@, 20) == 1 && u16_at(b@, 22) == 1,
        u32_at(b@, 24) == rate,
        u32_at(b@, 28) == 2 * rate,
        u16_at(b@, 32) == 2 && u16_at(b@, 34) == 16,
        u32_at(b@, 40) == 2 * pcm@.len(),
        b@[44 + 2 * i] + 256 * b@[45 + 2 * i] == pcm@[i] || b@[44 + 2 * i] + 256 * b@[45 + 2 * i]
            == pcm@[i] + 65536,
{
    let n = pcm@.len();
    let h = header(n, rate as nat);
    header_bytes(n, rate as nat);
    assert(forall|k: int| 0 <= k < 44 ==> b@[k] == h[k]);
    numbers_read_back((36 + 2 * n) as nat);
    numbers_read_back(rate as nat);
    numbers_read_back((2 * rate) as nat);
    numbers_read_back((2 * n) as nat);
    sample_bytes(pcm@, i);
    assert(b@[44 + 2 * i] == payload(pcm@)[2 * i]);
    assert(b@[45 + 2 * i] == payload(pcm@)[2 * i + 1]);
}

proof fn sample_bytes(pcm: Seq<i16>, i: int)
    requires
        0 <= i < pcm.len(),
    ensures
        payload(pcm)[2 * i] + 256 * payload(pcm)[2 * i + 1] == sample_bits(pcm[i]),
{
    assert((2 * i) / 2 == i && (2 * i + 1) / 2 == i);
    let n = sample_bits(pcm[i]);
    assert(payload(pcm)[2 * i] == n % 256 && payload(pcm)[2 * i + 1] == n / 256);
}

proof fn numbers_read_back(n: nat)
    requires
        n <= u32::MAX,
    ensures
        le32(n)[0] + 256 * le32(n)[1] + 65536 * le32(n)[2] + 16777216 * le32(n)[3] == n,
{
}

#[verifier::rlimit(40)]
#[verifier::spinoff_prover]
proof fn header_bytes(n: nat, rate: nat)
    ensures
        ({
            let h = header(n, rate);
            &&& h.len() == 44
            &&& h[0] == 0x52 && h[1] == 0x49 && h[2] == 0x46 && h[3] == 0x46
            &&& h[8] == 0x57 && h[9] == 0x41 && h[10] == 0x56 && h[11] == 0x45
            &&& h[12] == 0x66 && h[13] == 0x6D && h[14] == 0x74 && h[15] == 0x20
            &&& h[16] == 16 && h[17] == 0 && h[18] == 0 && h[19] == 0
            &&& h[20] == 1 && h[21] == 0 && h[22] == 1 && h[23] == 0
            &&& h[32] == 2 && h[33] == 0 && h[34] == 16 && h[35] == 0
            &&& h[36] == 0x64 && h[37] == 0x61 && h[38] == 0x74 && h[39] == 0x61
            &&& forall|k: int| 0 <= k < 4 ==> h[4 + k] == #[trigger] le32(36 + 2 * n)[k]
            &&& forall|k: int| 0 <= k < 4 ==> h[24 + k] == #[trigger] le32(rate)[k]
            &&& forall|k: int| 0 <= k < 4 ==> h[28 + k] == #[trigger] le32(2 * rate)[k]
            &&& forall|k: int| 0 <= k < 4 ==> h[40 + k] == #[trigger] le32(2 * n)[k]
        }),
{
    reveal(header);
}

/// A file is read if it is whole: a header of a 16 kHz recording with one channel of 16-bit samples,
/// and an even number of bytes behind it, of which each two are a sample, low byte first.
pub proof fn whole_files_are_read(
    bytes: Vec<u8>,
    r: Result<(Vec<i16>, u32), CommandError>,
    i: int,
)
    requires
        call_ensures(read_wav_samples, (&bytes,), r),
    ensures
        r is Ok <==> ({
            let b = bytes@;
            &&& b.len() >= 44 && b.len() % 2 == 0
            &&& b[0] == 0x52 && b[1] == 0x49 && b[2] == 0x46 && b[3] == 0x46
            &&& b[8] == 0x57 && b[9] == 0x41 && b[10] == 0x56 && b[11] == 0x45
            &&& b[20] == 1 && b[21] == 0 && b[22] == 1 && b[23] == 0
            &&& b[24] == 0x80 && b[25] == 0x3E && b[26] == 0 && b[27] == 0
            &&& b[34] == 16 && b[35] == 0
            &&& b[36] == 0x64 && b[37] == 0x61 && b[38] == 0x74 && b[39] == 0x61
        }),
        r is Err ==> r->Err_0.code@ == "VALIDATION"@,
        r is Ok ==> 2 * r->Ok_0.0@.len() == bytes@.len() - 44,
        r is Ok && 0 <= i < r->Ok_0.0@.len() ==> {
            let low = bytes@[44 + 2 * i] as int;
            let high = bytes@[45 + 2 * i] as int;
            r->Ok_0.0@[i] == (if high < 128 {
                low + 256 * high
            } else {
                low + 256 * high - 65536
            })
        },
{
    let b = bytes@;
    if b.len() >= 44 {
        tag_bytes(b, 0);
        tag_bytes(b, 8);
        tag_bytes(b, 36);
    }
    if r is Ok && 0 <= i < r->Ok_0.0@.len() {
        assert(r->Ok_0.0@[i] == samples_in(b)[i]);
    }
}

proof fn tag_bytes(b: Seq<u8>, i: int)
    requires
        0 <= i,
        i + 4 <= b.len(),
    ensures
        forall|w: u8, x: u8, y: u8, z: u8|
            tag_at(b, i) == #[trigger] seq![w, x, y, z] <==> b[i] == w && b[i + 1] == x && b[i + 2]
                == y && b[i + 3] == z,
{
    let t = tag_at(b, i);
    assert(t[0] == b[i] && t[1] == b[i + 1] && t[2] == b[i + 2] && t[3] == b[i + 3]);
    assert forall|w: u8, x: u8, y: u8, z: u8| tag_at(b, i) == #[trigger] seq![w, x, y, z] <==> b[i]
        == w && b[i + 1] == x && b[i + 2] == y && b[i + 3] == z by {
        let s = seq![w, x, y, z];
        assert(s[0] == w && s[1] == x && s[2] == y && s[3] == z);
        if b[i] == w && b[i + 1] == x && b[i + 2] == y && b[i + 3] == z {
            assert(t =~= s);
        }
    }
}

} // verus!
