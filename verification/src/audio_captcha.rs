//! The audio form of a captcha: the recordings of its letters, joined into
//! one recording and written as text.

use crate::error::Error;
use vstd::prelude::*;

verus! {

/// The `fmt ` chunk of a wave file.
#[derive(Clone, Copy, PartialEq, Eq, Structural, Debug, Hash)]
pub struct WavHeader {
    pub audio_format: u16,
    pub channel_count: u16,
    pub sampling_rate: u32,
    pub bytes_per_second: u32,
    pub bytes_per_sample: u16,
    pub bits_per_sample: u16,
}

/// The most samples of sixteen bits that one wave file can take: with more,
/// the length of the data no longer fits the 32 bits that a chunk has for
/// its own size.
pub const MAX_WAV_SAMPLES: usize = 2147483643;

/// The name `WAVE`, read as a number with the lowest byte first.
pub const WAVE: u32 = 0x4556_4157;

/// The name `fmt `, read as a number with the lowest byte first.
pub const FMT: u32 = 0x2074_6d66;

/// The name `data`, read as a number with the lowest byte first.
pub const DATA: u32 = 0x6174_6164;

/// The four bytes from `at` on, read as a number with the lowest byte
/// first.
pub open spec fn le_u32(bytes: Seq<u8>, at: int) -> nat {
    (bytes[at] + 256 * bytes[at + 1] + 65536 * bytes[at + 2] + 16777216 * bytes[at + 3]) as nat
}

/// Whether the four bytes from `at` on are text, that is, UTF-8.
pub open spec fn text4(bytes: Seq<u8>, at: int) -> bool {
    vstd::utf8::valid_utf8(bytes.subrange(at, at + 4))
}

/// The room that a chunk of `len` bytes takes: chunks are padded to an even
/// length.
pub open spec fn padded(len: nat) -> nat {
    if len % 2 == 0 {
        len
    } else {
        len + 1
    }
}

/// How the search for a chunk ends.
#[derive(Clone, Copy, PartialEq, Eq, Structural, Debug, Hash)]
pub enum Search {
    /// A chunk on the way is cut short inside the eight bytes that head it,
    /// or has a name that is not text. The reader of wave files panics
    /// there.
    Cut,
    /// No chunk has the name.
    Missing,
    /// A chunk has the name. The chunks behind it are not looked at.
    Found,
}

/// How the search for the first chunk with the name `name` ends, going
/// chunk by chunk from `cur` up to `end`.
pub open spec fn search(bytes: Seq<u8>, cur: int, end: int, name: u32) -> Search
    decreases
            if cur < end {
                end - cur
            } else {
                0
            },
{
    if cur >= end || cur < 0 {
        Search::Missing
    } else if cur + 8 > bytes.len() || !text4(bytes, cur) {
        Search::Cut
    } else if le_u32(bytes, cur) == name {
        Search::Found
    } else {
        search(bytes, cur + 8 + padded(le_u32(bytes, cur + 4)), end, name)
    }
}

/// Whether the reader of wave files gets through `bytes`, be it to read
/// them or to refuse them. It does where they are too short to hold the
/// name of a form. Otherwise that name must be text; and where it is `WAVE`,
/// the search for the chunk `fmt ` must not be cut, nor, once that chunk is
/// found, the search for the chunk `data`. Both searches span what the
/// length of the form says, which need not be what the file holds.
pub open spec fn walkable(bytes: Seq<u8>) -> bool {
    let end = 4 + le_u32(bytes, 4) as int;
    bytes.len() < 12 || (text4(bytes, 8) && (le_u32(bytes, 8) != WAVE || match search(
        bytes,
        12,
        end,
        FMT,
    ) {
        Search::Cut => false,
        Search::Missing => true,
        Search::Found => !(search(bytes, 12, end, DATA) is Cut),
    }))
}

/// The bytes of a letter's recording; none where the letter has no
/// recording.
pub open spec fn letter_bytes(letter: Option<Vec<u8>>) -> Seq<u8> {
    match letter {
        Some(bytes) => bytes@,
        None => Seq::empty(),
    }
}

/// `std::str::from_utf8`: whether the bytes are UTF-8.
#[verifier::external_body]
fn is_text(bytes: &[u8]) -> (b: bool)
    ensures
        b == vstd::utf8::valid_utf8(bytes@),
{
    std::str::from_utf8(bytes).is_ok()
}

fn le_u32_at(bytes: &Vec<u8>, at: usize) -> (value: u64)
    requires
        at + 4 <= bytes.len(),
    ensures
        value == le_u32(bytes@, at as int),
        value <= u32::MAX,
{
    (bytes[at] as u64) + 256 * (bytes[at + 1] as u64) + 65536 * (bytes[at + 2] as u64) + 16777216
        * (bytes[at + 3] as u64)
}

fn text4_at(bytes: &Vec<u8>, at: usize) -> (b: bool)
    requires
        at + 4 <= bytes.len(),
    ensures
        b == text4(bytes@, at as int),
{
    is_text(vstd::slice::slice_subrange(bytes.as_slice(), at, at + 4))
}

/// How the search for the first chunk with the name `name` ends, from the
/// first chunk of the form up to `end`.
fn search_from_start(bytes: &Vec<u8>, end: u64, name: u32) -> (found: Search)
    requires
        end <= 4 + u32::MAX,
    ensures
        found == search(bytes@, 12, end as int, name),
{
    let n = bytes.len();
    let mut cur: u64 = 12;
    while cur < end
        invariant
            n == bytes.len(),
            12 <= cur,
            end <= 4 + u32::MAX,
            search(bytes@, 12, end as int, name) == search(bytes@, cur as int, end as int, name),
        decreases
                if cur < end {
                    end - cur
                } else {
                    0
                },
    {
        if cur + 8 > n as u64 {
            return Search::Cut;
        }
        let at = cur as usize;
        if !text4_at(bytes, at) {
            return Search::Cut;
        }
        if le_u32_at(bytes, at) == name as u64 {
            return Search::Found;
        }
        let len = le_u32_at(bytes, at + 4);
        cur = cur + 8 + len + len % 2;
    }
    Search::Missing
}

/// Whether the reader of wave files gets through `bytes`.
pub fn is_walkable(bytes: &Vec<u8>) -> (b: bool)
    ensures
        b == walkable(bytes@),
{
    if bytes.len() < 12 {
        return true;
    }
    if !text4_at(bytes, 8) {
        return false;
    }
    if le_u32_at(bytes, 8) != WAVE as u64 {
        return true;
    }
    let end: u64 = 4 + le_u32_at(bytes, 4);
    match search_from_start(bytes, end, FMT) {
        Search::Cut => false,
        Search::Missing => true,
        Search::Found => match search_from_start(bytes, end, DATA) {
            Search::Cut => false,
            _ => true,
        },
    }
}

/// `std::io::Error`: why a read or a write failed.
#[verifier::external_type_specification]
#[verifier::external_body]
pub struct ExIoError(std::io::Error);

/// What `wav::read` makes of the bytes of a file: `None` where it fails;
/// else the header, and the samples where they are of sixteen bits, `None`
/// where they are of another depth.
pub uninterp spec fn wav_decoded(bytes: Seq<u8>) -> Option<(WavHeader, Option<Seq<i16>>)>;

/// What `wav::write` writes for a header and samples of sixteen bits: the
/// bytes of the file, or `None` where it fails.
pub uninterp spec fn wav_encoded(header: WavHeader, samples: Seq<i16>) -> Option<Seq<u8>>;

/// The text that the engine `STANDARD_NO_PAD` of `base64` makes of the
/// bytes.
pub uninterp spec fn base64_no_pad(bytes: Seq<u8>) -> Seq<char>;

/// The bytes of a file as plain values.
pub open spec fn file_bytes(bytes: Option<Vec<u8>>) -> Option<Seq<u8>> {
    match bytes {
        Some(v) => Some(v@),
        None => None,
    }
}

/// The samples as plain values.
pub open spec fn samples_of(samples: Option<Vec<i16>>) -> Option<Seq<i16>> {
    match samples {
        Some(v) => Some(v@),
        None => None,
    }
}

/// `wav::read` on the bytes of a file. The result depends on the bytes
/// alone. The reader panics where the name of the form is not text, and
/// where a chunk that it comes by is cut short inside its head or has a name
/// that is not text; on bytes that are [`walkable`] it meets none of these.
#[verifier::external_body]
#[allow(deprecated)]
fn read_wav(bytes: &Vec<u8>) -> (decoded: Result<(WavHeader, Option<Vec<i16>>), std::io::Error>)
    requires
        walkable(bytes@),
    ensures
        match decoded {
            Ok((header, samples)) => wav_decoded(bytes@) == Some((header, samples_of(samples))),
            Err(_) => wav_decoded(bytes@) is None,
        },
{
    let (h, data) = wav::read(&mut std::io::Cursor::new(bytes.as_slice()))?;
    let header = WavHeader {
        audio_format: h.audio_format,
        channel_count: h.channel_count,
        sampling_rate: h.sampling_rate,
        bytes_per_second: h.bytes_per_second,
        bytes_per_sample: h.bytes_per_sample,
        bits_per_sample: h.bits_per_sample,
    };
    Ok((header, data.try_into_sixteen().ok()))
}

/// `wav::write` for samples of sixteen bits, into memory. The result
/// depends on the header and the samples alone. The writer adds eight to the
/// length of the data in 32 bits, which overflows for more than
/// [`MAX_WAV_SAMPLES`] samples.
#[verifier::external_body]
#[allow(deprecated)]
fn write_wav(header: WavHeader, samples: Vec<i16>) -> (encoded: Result<Vec<u8>, std::io::Error>)
    requires
        samples@.len() <= MAX_WAV_SAMPLES,
    ensures
        match encoded {
            Ok(bytes) => wav_encoded(header, samples@) == Some(bytes@),
            Err(_) => wav_encoded(header, samples@) is None,
        },
{
    let h = wav::Header {
        audio_format: header.audio_format,
        channel_count: header.channel_count,
        sampling_rate: header.sampling_rate,
        bytes_per_second: header.bytes_per_second,
        bytes_per_sample: header.bytes_per_sample,
        bits_per_sample: header.bits_per_sample,
    };
    let mut out = std::io::Cursor::new(vec![]);
    wav::write(h, &wav::BitDepth::Sixteen(samples), &mut out)?;
    Ok(out.into_inner())
}

/// `encode` of the engine `STANDARD_NO_PAD` of `base64`. The result depends
/// on the bytes alone. The engine panics where the length of the text does
/// not fit a `usize`, which bytes of at most half that length cannot cause.
#[verifier::external_body]
fn encode_base64(bytes: Vec<u8>) -> (text: String)
    requires
        bytes@.len() <= usize::MAX / 2,
    ensures
        text@ == base64_no_pad(bytes@),
{
    base64::Engine::encode(&base64::engine::general_purpose::STANDARD_NO_PAD, bytes)
}

/// What joining the recordings gives, where each is what the reader of wave
/// files made of one letter: the header of the last letter and the samples
/// of all letters in order. The first letter that could not be read fails
/// with [`Error::Unknown`], the first that is not of sixteen bits with
/// [`Error::CouldntCreateAudioCaptcha`]; so does a captcha without letters.
pub open spec fn joined(letters: Seq<Option<(WavHeader, Option<Seq<i16>>)>>) -> Result<
    (WavHeader, Seq<i16>),
    Error,
>
    decreases letters.len(),
{
    if letters.len() == 0 {
        Err(Error::CouldntCreateAudioCaptcha)
    } else {
        let before = letters.drop_last();
        match (joined(before), letters.last()) {
            (Err(e), _) if before.len() > 0 => Err(e),
            (_, None) => Err(Error::Unknown),
            (_, Some((_, None))) => Err(Error::CouldntCreateAudioCaptcha),
            (Ok((_, samples)), Some((header, Some(more)))) => Ok((header, samples + more)),
            (Err(_), Some((header, Some(more)))) => Ok((header, more)),
        }
    }
}

/// One letter as the reader of wave files decoded it, as plain values.
pub open spec fn decoded_letter(letter: Option<(WavHeader, Option<Vec<i16>>)>) -> Option<
    (WavHeader, Option<Seq<i16>>),
> {
    match letter {
        Some((header, samples)) => Some((header, samples_of(samples))),
        None => None,
    }
}

/// Adds one decoded letter to the recording so far. `so_far` is the result
/// of joining the letters before it, if there were any.
pub fn join_letter(
    so_far: Option<(WavHeader, Vec<i16>)>,
    letter: Option<(WavHeader, Option<Vec<i16>>)>,
) -> (result: Result<(WavHeader, Vec<i16>), Error>)
    ensures
        match letter {
            None => result == Err::<(WavHeader, Vec<i16>), Error>(Error::Unknown),
            Some((_, None)) => result == Err::<(WavHeader, Vec<i16>), Error>(
                Error::CouldntCreateAudioCaptcha,
            ),
            Some((header, Some(more))) => result is Ok && result->Ok_0.0 == header
                && result->Ok_0.1@ == (match so_far {
                Some((_, samples)) => samples@ + more@,
                None => more@,
            }),
        },
{
    match letter {
        None => Err(Error::Unknown),
        Some((_, None)) => Err(Error::CouldntCreateAudioCaptcha),
        Some((header, Some(mut more))) => match so_far {
            Some((_, mut samples)) => {
                samples.append(&mut more);
                Ok((header, samples))
            },
            None => Ok((header, more)),
        },
    }
}

/// The text of the audio captcha, given the wave file of the joined
/// recording: the file written as text, or
/// [`Error::CouldntCreateAudioCaptcha`] where there is no file or it is too
/// long to be written as text.
pub open spec fn finished(encoded: Option<Seq<u8>>) -> Result<Seq<char>, Error> {
    match encoded {
        Some(bytes) if bytes.len() <= usize::MAX / 2 => Ok(base64_no_pad(bytes)),
        _ => Err(Error::CouldntCreateAudioCaptcha),
    }
}

/// Writes the wave file of the joined recording as text. `encoded` is what
/// writing the file gave, `None` where it could not be written.
pub fn audio_text(encoded: Option<Vec<u8>>) -> (text: Result<String, Error>)
    ensures
        match finished(file_bytes(encoded)) {
            Ok(chars) => text is Ok && text->Ok_0@ == chars,
            Err(e) => text == Err::<String, Error>(e),
        },
{
    match encoded {
        Some(bytes) => {
            if bytes.len() <= usize::MAX / 2 {
                Ok(encode_base64(bytes))
            } else {
                Err(Error::CouldntCreateAudioCaptcha)
            }
        },
        None => Err(Error::CouldntCreateAudioCaptcha),
    }
}

/// What the reader of wave files makes of one letter's recording. A
/// recording that it does not get through counts as one that it cannot
/// read.
pub open spec fn letter_read(letter: Option<Vec<u8>>) -> Option<(WavHeader, Option<Seq<i16>>)> {
    if walkable(letter_bytes(letter)) {
        wav_decoded(letter_bytes(letter))
    } else {
        None
    }
}

/// The wave file of a joined recording: what the writer of wave files
/// writes, and none where the samples are more than one file can take.
pub open spec fn written(header: WavHeader, samples: Seq<i16>) -> Option<Seq<u8>> {
    if samples.len() > MAX_WAV_SAMPLES {
        None
    } else {
        wav_encoded(header, samples)
    }
}

/// What the audio captcha of the letters is: the recordings are read and
/// joined, the joined recording is written as one wave file under the header
/// of the last letter, and the file is written as text.
pub open spec fn audio_captcha(letters: Seq<Option<Vec<u8>>>) -> Result<Seq<char>, Error> {
    match joined(letters.map_values(|l: Option<Vec<u8>>| letter_read(l))) {
        Ok((header, samples)) => finished(written(header, samples)),
        Err(e) => Err(e),
    }
}

/// Reads the recording of one letter; `None` where the reader of wave files
/// cannot read it or would not get through it.
fn read_letter(letter: &Option<Vec<u8>>) -> (read: Option<(WavHeader, Option<Vec<i16>>)>)
    ensures
        decoded_letter(read) == letter_read(*letter),
{
    let empty: Vec<u8> = Vec::new();
    let bytes = match letter {
        Some(bytes) => bytes,
        None => &empty,
    };
    if !is_walkable(bytes) {
        return None;
    }
    match read_wav(bytes) {
        Ok(found) => Some(found),
        Err(_) => None,
    }
}

/// Converts the captcha to a base64 encoded wav audio file. `letters` holds
/// the recording of each letter of the captcha as a wave file, `None` for a
/// letter without a recording, which counts as an empty file.
///
/// The letters are read in order, and the first that fails decides: one
/// that cannot be read gives [`Error::Unknown`], one that is not of sixteen
/// bits [`Error::CouldntCreateAudioCaptcha`]. The letters behind it are not
/// looked at.
pub fn captcha_as_wav_base64(letters: &Vec<Option<Vec<u8>>>) -> (text: Result<String, Error>)
    ensures
        match audio_captcha(letters@) {
            Ok(chars) => text is Ok && text->Ok_0@ == chars,
            Err(e) => text == Err::<String, Error>(e),
        },
{
    let ghost decoded = letters@.map_values(|l: Option<Vec<u8>>| letter_read(l));
    let mut so_far: Option<(WavHeader, Vec<i16>)> = None;
    let mut i: usize = 0;
    while i < letters.len()
        invariant
            i <= letters.len(),
            decoded == letters@.map_values(|l: Option<Vec<u8>>| letter_read(l)),
            i == 0 <==> so_far is None,
            i > 0 ==> joined(decoded.take(i as int)) == Ok::<(WavHeader, Seq<i16>), Error>(
                (so_far->Some_0.0, so_far->Some_0.1@),
            ),
        decreases letters.len() - i,
    {
        let letter = read_letter(&letters[i]);
        proof {
            let upto = decoded.take(i as int + 1);
            assert(upto.drop_last() =~= decoded.take(i as int));
            assert(upto.last() == decoded_letter(letter));
        }
        match join_letter(so_far, letter) {
            Ok(joined_now) => {
                so_far = Some(joined_now);
            },
            Err(e) => {
                proof {
                    lemma_failure_stays(decoded, i as int + 1);
                }
                return Err(e);
            },
        }
        i += 1;
    }
    proof {
        assert(decoded.take(i as int) =~= decoded);
    }
    match so_far {
        None => Err(Error::CouldntCreateAudioCaptcha),
        Some((header, samples)) => {
            if samples.len() > MAX_WAV_SAMPLES {
                return audio_text(None);
            }
            match write_wav(header, samples) {
                Ok(bytes) => audio_text(Some(bytes)),
                Err(_) => audio_text(None),
            }
        },
    }
}

/// Once the letters up to some place fail to join, all of them do, with the
/// same failure.
pub proof fn lemma_failure_stays(letters: Seq<Option<(WavHeader, Option<Seq<i16>>)>>, upto: int)
    requires
        0 < upto <= letters.len(),
        joined(letters.take(upto)) is Err,
    ensures
        joined(letters) == joined(letters.take(upto)),
    decreases letters.len() - upto,
{
    if upto < letters.len() {
        let next = letters.take(upto + 1);
        assert(next.drop_last() =~= letters.take(upto));
        lemma_failure_stays(letters, upto + 1);
    } else {
        assert(letters.take(upto) =~= letters);
    }
}

} // verus!
