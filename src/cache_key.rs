//! Deterministic cache keys for synthesized audio.

use sha2::Digest;
use vstd::prelude::*;
use vstd::utf8::encode_utf8;

verus! {

/// The SHA-256 digest of a byte sequence.
pub uninterp spec fn sha256_of(data: Seq<u8>) -> Seq<u8>;

/// Relies on sha2::Sha256::digest: the 32-byte SHA-256 digest of `data`,
/// which depends on the bytes alone.
#[verifier::external_body]
fn sha256_digest(data: &Vec<u8>) -> (r: Vec<u8>)
    ensures
        r@ == sha256_of(data@),
        r@.len() == 32,
{
    sha2::Sha256::digest(data.as_slice()).to_vec()
}

/// The lowercase hexadecimal digit for `n`, which must be below 16.
pub open spec fn hex_digit(n: u8) -> char {
    if n == 0 { '0' }
    else if n == 1 { '1' }
    else if n == 2 { '2' }
    else if n == 3 { '3' }
    else if n == 4 { '4' }
    else if n == 5 { '5' }
    else if n == 6 { '6' }
    else if n == 7 { '7' }
    else if n == 8 { '8' }
    else if n == 9 { '9' }
    else if n == 10 { 'a' }
    else if n == 11 { 'b' }
    else if n == 12 { 'c' }
    else if n == 13 { 'd' }
    else if n == 14 { 'e' }
    else { 'f' }
}

/// Each byte as two lowercase hexadecimal digits, high nibble first.
pub open spec fn hex_text(bytes: Seq<u8>) -> Seq<char>
    decreases bytes.len(),
{
    if bytes.len() == 0 {
        Seq::empty()
    } else {
        let b = bytes.last();
        hex_text(bytes.drop_last()) + seq![hex_digit(b / 16), hex_digit(b % 16)]
    }
}

fn hex_digit_str(n: u8) -> (r: &'static str)
    requires
        n < 16,
    ensures
        r@ == seq![hex_digit(n)],
{
    if n == 0 { proof { reveal_strlit("0"); } "0" }
    else if n == 1 { proof { reveal_strlit("1"); } "1" }
    else if n == 2 { proof { reveal_strlit("2"); } "2" }
    else if n == 3 { proof { reveal_strlit("3"); } "3" }
    else if n == 4 { proof { reveal_strlit("4"); } "4" }
    else if n == 5 { proof { reveal_strlit("5"); } "5" }
    else if n == 6 { proof { reveal_strlit("6"); } "6" }
    else if n == 7 { proof { reveal_strlit("7"); } "7" }
    else if n == 8 { proof { reveal_strlit("8"); } "8" }
    else if n == 9 { proof { reveal_strlit("9"); } "9" }
    else if n == 10 { proof { reveal_strlit("a"); } "a" }
    else if n == 11 { proof { reveal_strlit("b"); } "b" }
    else if n == 12 { proof { reveal_strlit("c"); } "c" }
    else if n == 13 { proof { reveal_strlit("d"); } "d" }
    else if n == 14 { proof { reveal_strlit("e"); } "e" }
    else { proof { reveal_strlit("f"); } "f" }
}

/// Appends the lowercase hexadecimal text of `bytes` to `out`.
fn push_hex(out: &mut String, bytes: &Vec<u8>)
    ensures
        final(out)@ == old(out)@ + hex_text(bytes@),
{
    let mut i: usize = 0;
    while i < bytes.len()
        invariant
            i <= bytes@.len(),
            out@ == old(out)@ + hex_text(bytes@.subrange(0, i as int)),
        decreases bytes@.len() - i,
    {
        let b = bytes[i];
        out.append(hex_digit_str(b / 16));
        out.append(hex_digit_str(b % 16));
        proof {
            let next = bytes@.subrange(0, i as int + 1);
            assert(next.drop_last() =~= bytes@.subrange(0, i as int));
            assert(next.last() == b);
        }
        i = i + 1;
    }
    proof {
        assert(bytes@.subrange(0, bytes@.len() as int) =~= bytes@);
    }
}

/// The key under which the audio synthesized from `input` is cached:
/// `prefix`, a dash, and the hexadecimal SHA-256 digest of `input`.
pub open spec fn key_from_input(prefix: Seq<char>, input: Seq<u8>) -> Seq<char> {
    prefix + seq!['-'] + hex_text(sha256_of(input))
}

/// Builds the cache key for the hash input `input`, labelled with `prefix`.
pub fn derive_key(prefix: &str, input: &Vec<u8>) -> (r: String)
    ensures
        r@ == key_from_input(prefix@, input@),
{
    let digest = sha256_digest(input);
    let mut key = prefix.to_owned();
    proof { reveal_strlit("-"); }
    key.append("-");
    push_hex(&mut key, &digest);
    key
}

/// Appends the UTF-8 bytes of `s` to `out`.
fn push_utf8(out: &mut Vec<u8>, s: &str)
    ensures
        final(out)@ == old(out)@ + encode_utf8(s@),
{
    let bytes = s.as_bytes();
    let mut i: usize = 0;
    while i < bytes.len()
        invariant
            bytes@ == encode_utf8(s@),
            i <= bytes@.len(),
            out@ == old(out)@ + bytes@.subrange(0, i as int),
        decreases bytes@.len() - i,
    {
        out.push(bytes[i]);
        proof {
            assert(bytes@.subrange(0, i as int + 1) =~= bytes@.subrange(0, i as int).push(bytes@[i as int]));
        }
        i = i + 1;
    }
    proof {
        assert(bytes@.subrange(0, bytes@.len() as int) =~= bytes@);
    }
}


/// Used to invalidate entries cached by earlier Azure rendering pipelines.
pub const AZURE_FORMAT_VERSION: u32 = 4;

/// Used to invalidate entries cached by earlier Eleven Labs rendering pipelines.
pub const ELEVEN_LABS_FORMAT_VERSION: u32 = 5;

/// Used to invalidate entries cached by earlier Google rendering pipelines.
pub const GOOGLE_FORMAT_VERSION: u32 = 1;

/// Expression with which an Azure voice renders a phrase.
#[derive(Debug, Clone, Copy, PartialEq, Eq, Structural)]
pub enum AzureVoiceStyle {
    Plain,
    Angry,
    Cheerful,
    Sad,
}

impl Default for AzureVoiceStyle {
    fn default() -> (r: AzureVoiceStyle)
        ensures
            r == AzureVoiceStyle::Plain,
    {
        AzureVoiceStyle::Plain
    }
}

/// The byte that stands for a style in a hash input.
pub open spec fn style_tag(style: AzureVoiceStyle) -> u8 {
    match style {
        AzureVoiceStyle::Plain => 0,
        AzureVoiceStyle::Angry => 1,
        AzureVoiceStyle::Cheerful => 2,
        AzureVoiceStyle::Sad => 3,
    }
}

fn style_byte(style: AzureVoiceStyle) -> (r: u8)
    ensures
        r == style_tag(style),
{
    match style {
        AzureVoiceStyle::Plain => 0,
        AzureVoiceStyle::Angry => 1,
        AzureVoiceStyle::Cheerful => 2,
        AzureVoiceStyle::Sad => 3,
    }
}

/// Gender of a synthesized voice.
#[derive(Debug, Clone, Copy, PartialEq, Eq, Structural)]
pub enum VoiceGender {
    Female,
    Male,
    Neutral,
}

/// The byte that stands for a gender in a hash input.
pub open spec fn gender_tag(gender: VoiceGender) -> u8 {
    match gender {
        VoiceGender::Female => 0,
        VoiceGender::Male => 1,
        VoiceGender::Neutral => 2,
    }
}

fn gender_byte(gender: VoiceGender) -> (r: u8)
    ensures
        r == gender_tag(gender),
{
    match gender {
        VoiceGender::Female => 0,
        VoiceGender::Male => 1,
        VoiceGender::Neutral => 2,
    }
}

/// An Azure voice: its name, its language and its gender.
#[derive(Debug, Clone)]
pub struct AzureVoice {
    pub name: String,
    pub language: String,
    pub gender: VoiceGender,
}

impl AzureVoice {
    /// A copy of this voice.
    pub fn copy(&self) -> (r: AzureVoice)
        ensures
            r == *self,
    {
        AzureVoice { name: self.name.clone(), language: self.language.clone(), gender: self.gender }
    }
}

/// A Google voice: its language code, an optional name and its gender.
#[derive(Debug, Clone)]
pub struct GoogleVoice {
    pub language_code: String,
    pub name: Option<String>,
    pub gender: VoiceGender,
}

/// A format version as four bytes, most significant first.
pub open spec fn be32(v: u32) -> Seq<u8> {
    seq![(v >> 24u32) as u8, (v >> 16u32) as u8, (v >> 8u32) as u8, v as u8]
}

/// Appends the four big-endian bytes of `v` to `out`.
fn push_be32(out: &mut Vec<u8>, v: u32)
    ensures
        final(out)@ == old(out)@ + be32(v),
{
    out.push((v >> 24u32) as u8);
    out.push((v >> 16u32) as u8);
    out.push((v >> 8u32) as u8);
    out.push(v as u8);
    assert(final(out)@ =~= old(out)@ + be32(v));
}

/// What is hashed for an Azure request: the text, the voice's name and
/// language, the audio format, the style, the format version and the gender.
pub open spec fn azure_key_input(
    text: Seq<char>,
    name: Seq<char>,
    language: Seq<char>,
    format: Seq<char>,
    style: AzureVoiceStyle,
    version: u32,
    gender: VoiceGender,
) -> Seq<u8> {
    encode_utf8(text) + encode_utf8(name) + encode_utf8(language) + encode_utf8(format)
        + seq![style_tag(style)] + be32(version) + seq![gender_tag(gender)]
}

/// The cache key of an Azure request, labelled with the voice's name.
pub open spec fn azure_cache_key(
    text: Seq<char>,
    name: Seq<char>,
    language: Seq<char>,
    format: Seq<char>,
    style: AzureVoiceStyle,
    version: u32,
    gender: VoiceGender,
) -> Seq<char> {
    key_from_input(name, azure_key_input(text, name, language, format, style, version, gender))
}

/// The cache key under which `text`, spoken by `voice` with `style` and
/// rendered in `format`, is stored.
pub fn hash_azure_tts(text: &str, voice: &AzureVoice, format: &str, style: AzureVoiceStyle) -> (r: String)
    ensures
        r@ == azure_cache_key(
            text@,
            voice.name@,
            voice.language@,
            format@,
            style,
            AZURE_FORMAT_VERSION,
            voice.gender,
        ),
{
    let mut input: Vec<u8> = Vec::new();
    push_utf8(&mut input, text);
    push_utf8(&mut input, voice.name.as_str());
    push_utf8(&mut input, voice.language.as_str());
    push_utf8(&mut input, format);
    input.push(style_byte(style));
    push_be32(&mut input, AZURE_FORMAT_VERSION);
    input.push(gender_byte(voice.gender));
    assert(input@ =~= azure_key_input(
        text@,
        voice.name@,
        voice.language@,
        format@,
        style,
        AZURE_FORMAT_VERSION,
        voice.gender,
    ));
    derive_key(voice.name.as_str(), &input)
}

/// What is hashed for an Eleven Labs request: the text, the voice id and
/// the format version.
pub open spec fn eleven_key_input(text: Seq<char>, voice_id: Seq<char>, version: u32) -> Seq<u8> {
    encode_utf8(text) + encode_utf8(voice_id) + be32(version)
}

/// The label that starts every Eleven Labs cache key.
pub open spec fn eleven_prefix() -> Seq<char> {
    seq!['e', 'l', 'e', 'v', 'e', 'n']
}

/// The cache key of an Eleven Labs request.
pub open spec fn eleven_cache_key(text: Seq<char>, voice_id: Seq<char>, version: u32) -> Seq<char> {
    key_from_input(eleven_prefix(), eleven_key_input(text, voice_id, version))
}

/// The cache key under which `text`, spoken by the voice `voice_id`, is stored.
pub fn hash_eleven_labs_tts(text: &str, voice_id: &str) -> (r: String)
    ensures
        r@ == eleven_cache_key(text@, voice_id@, ELEVEN_LABS_FORMAT_VERSION),
{
    let mut input: Vec<u8> = Vec::new();
    push_utf8(&mut input, text);
    push_utf8(&mut input, voice_id);
    push_be32(&mut input, ELEVEN_LABS_FORMAT_VERSION);
    assert(input@ =~= eleven_key_input(text@, voice_id@, ELEVEN_LABS_FORMAT_VERSION));
    proof { reveal_strlit("eleven"); }
    derive_key("eleven", &input)
}

/// The name a Google voice is labelled with in its cache keys.
pub open spec fn google_label(name: Option<Seq<char>>) -> Seq<char> {
    match name {
        Some(n) => n,
        None => seq!['U', 'n', 'k', 'n', 'o', 'w', 'n'],
    }
}

/// What is hashed for a Google request: the text, the voice's language code,
/// its name if it has one, its gender and the format version.
pub open spec fn google_key_input(
    text: Seq<char>,
    language_code: Seq<char>,
    name: Option<Seq<char>>,
    gender: VoiceGender,
    version: u32,
) -> Seq<u8> {
    let name_bytes = match name {
        Some(n) => encode_utf8(n),
        None => Seq::empty(),
    };
    encode_utf8(text) + encode_utf8(language_code) + name_bytes + seq![gender_tag(gender)]
        + be32(version)
}

/// The view of an optional string.
pub open spec fn opt_view(s: Option<String>) -> Option<Seq<char>> {
    match s {
        Some(v) => Some(v@),
        None => None,
    }
}

/// The cache key of a Google request.
pub open spec fn google_cache_key(
    text: Seq<char>,
    language_code: Seq<char>,
    name: Option<Seq<char>>,
    gender: VoiceGender,
    version: u32,
) -> Seq<char> {
    key_from_input(google_label(name), google_key_input(text, language_code, name, gender, version))
}

/// The cache key under which `text`, spoken by the Google voice `voice`, is stored.
pub fn hash_google_tts(text: &str, voice: &GoogleVoice) -> (r: String)
    ensures
        r@ == google_cache_key(
            text@,
            voice.language_code@,
            opt_view(voice.name),
            voice.gender,
            GOOGLE_FORMAT_VERSION,
        ),
{
    let mut input: Vec<u8> = Vec::new();
    push_utf8(&mut input, text);
    push_utf8(&mut input, voice.language_code.as_str());
    match &voice.name {
        Some(n) => push_utf8(&mut input, n.as_str()),
        None => {},
    }
    input.push(gender_byte(voice.gender));
    push_be32(&mut input, GOOGLE_FORMAT_VERSION);
    assert(input@ =~= google_key_input(
        text@,
        voice.language_code@,
        opt_view(voice.name),
        voice.gender,
        GOOGLE_FORMAT_VERSION,
    ));
    match &voice.name {
        Some(n) => derive_key(n.as_str(), &input),
        None => {
            proof { reveal_strlit("Unknown"); }
            derive_key("Unknown", &input)
        },
    }
}

proof fn lemma_be32_injective(a: u32, b: u32)
    requires
        be32(a) == be32(b),
    ensures
        a == b,
{
    assert(be32(a)[0] == be32(b)[0]);
    assert(be32(a)[1] == be32(b)[1]);
    assert(be32(a)[2] == be32(b)[2]);
    assert(be32(a)[3] == be32(b)[3]);
    assert(a == b) by (bit_vector)
        requires
            (a >> 24u32) as u8 == (b >> 24u32) as u8,
            (a >> 16u32) as u8 == (b >> 16u32) as u8,
            (a >> 8u32) as u8 == (b >> 8u32) as u8,
            a as u8 == b as u8,
    ;
}

/// Two byte sequences that share a prefix and a suffix and differ in a
/// four-byte version field between them differ.
proof fn lemma_version_field_differs(p: Seq<u8>, q: Seq<u8>, v1: u32, v2: u32)
    requires
        v1 != v2,
    ensures
        p + be32(v1) + q != p + be32(v2) + q,
{
    if p + be32(v1) + q == p + be32(v2) + q {
        let n = p.len() as int;
        assert forall|i: int| 0 <= i < 4 implies be32(v1)[i] == be32(v2)[i] by {
            assert((p + be32(v1) + q)[n + i] == be32(v1)[i]);
            assert((p + be32(v2) + q)[n + i] == be32(v2)[i]);
        }
        assert(be32(v1) =~= be32(v2));
        lemma_be32_injective(v1, v2);
    }
}

/// A cache key is a function of the request alone: two requests with the
/// same text, voice, format, style and format version get the same key, in
/// any process.
pub proof fn lemma_azure_key_deterministic(
    text1: Seq<char>, text2: Seq<char>,
    name1: Seq<char>, name2: Seq<char>,
    language1: Seq<char>, language2: Seq<char>,
    format1: Seq<char>, format2: Seq<char>,
    style1: AzureVoiceStyle, style2: AzureVoiceStyle,
    version1: u32, version2: u32,
    gender1: VoiceGender, gender2: VoiceGender,
)
    requires
        text1 == text2,
        name1 == name2,
        language1 == language2,
        format1 == format2,
        style1 == style2,
        version1 == version2,
        gender1 == gender2,
    ensures
        azure_cache_key(text1, name1, language1, format1, style1, version1, gender1)
            == azure_cache_key(text2, name2, language2, format2, style2, version2, gender2),
{
}

/// Two Azure requests that differ only in the format version hash different
/// inputs, so entries cached under an earlier version are not looked up.
pub proof fn lemma_azure_version_changes_input(
    text: Seq<char>,
    name: Seq<char>,
    language: Seq<char>,
    format: Seq<char>,
    style: AzureVoiceStyle,
    gender: VoiceGender,
    version1: u32,
    version2: u32,
)
    requires
        version1 != version2,
    ensures
        azure_key_input(text, name, language, format, style, version1, gender)
            != azure_key_input(text, name, language, format, style, version2, gender),
{
    let p = encode_utf8(text) + encode_utf8(name) + encode_utf8(language) + encode_utf8(format)
        + seq![style_tag(style)];
    let q = seq![gender_tag(gender)];
    lemma_version_field_differs(p, q, version1, version2);
}

/// Two Eleven Labs requests that differ only in the format version hash
/// different inputs.
pub proof fn lemma_eleven_version_changes_input(
    text: Seq<char>,
    voice_id: Seq<char>,
    version1: u32,
    version2: u32,
)
    requires
        version1 != version2,
    ensures
        eleven_key_input(text, voice_id, version1) != eleven_key_input(text, voice_id, version2),
{
    let p = encode_utf8(text) + encode_utf8(voice_id);
    let q = Seq::<u8>::empty();
    assert(p + be32(version1) + q =~= eleven_key_input(text, voice_id, version1));
    assert(p + be32(version2) + q =~= eleven_key_input(text, voice_id, version2));
    lemma_version_field_differs(p, q, version1, version2);
}

/// Two Google requests that differ only in the format version hash
/// different inputs.
pub proof fn lemma_google_version_changes_input(
    text: Seq<char>,
    language_code: Seq<char>,
    name: Option<Seq<char>>,
    gender: VoiceGender,
    version1: u32,
    version2: u32,
)
    requires
        version1 != version2,
    ensures
        google_key_input(text, language_code, name, gender, version1)
            != google_key_input(text, language_code, name, gender, version2),
{
    let name_bytes = match name {
        Some(n) => encode_utf8(n),
        None => Seq::empty(),
    };
    let p = encode_utf8(text) + encode_utf8(language_code) + name_bytes + seq![gender_tag(gender)];
    let q = Seq::<u8>::empty();
    assert(p + be32(version1) + q =~= google_key_input(text, language_code, name, gender, version1));
    assert(p + be32(version2) + q =~= google_key_input(text, language_code, name, gender, version2));
    lemma_version_field_differs(p, q, version1, version2);
}

} // verus!
