//! Previews of sensor data for a log line: the data as text, cut after
//! fifty bytes.

use vstd::prelude::*;
use vstd::string::*;
use vstd::utf8::*;

verus! {

/// Longest text, in bytes of its UTF-8 encoding, that is shown whole.
pub const PREVIEW_LIMIT: usize = 50;

/// The text that lossy decoding makes of `bytes`: the decoded text where the
/// bytes are valid UTF-8, and otherwise the text in which every invalid
/// sequence is replaced by U+FFFD.
pub uninterp spec fn lossy_text(bytes: Seq<u8>) -> Seq<char>;

/// The three dots that mark a cut.
pub open spec fn ellipsis() -> Seq<char> {
    seq!['.', '.', '.']
}

/// The text fits the limit, or the limit falls between two of its characters.
pub open spec fn cut_is_clean(text: Seq<char>) -> bool {
    encode_utf8(text).len() > PREVIEW_LIMIT ==> is_char_boundary(
        encode_utf8(text),
        PREVIEW_LIMIT as int,
    )
}

/// The preview of a text: the text itself if its encoding fits the limit,
/// otherwise what the first `PREVIEW_LIMIT` bytes of its encoding spell,
/// followed by three dots.
pub open spec fn preview_of(text: Seq<char>) -> Seq<char> {
    if encode_utf8(text).len() > PREVIEW_LIMIT {
        decode_utf8(encode_utf8(text).subrange(0, PREVIEW_LIMIT as int)) + ellipsis()
    } else {
        text
    }
}

/// Encoding goes through concatenation.
pub proof fn lemma_encode_concat(first: Seq<char>, second: Seq<char>)
    ensures
        encode_utf8(first + second) == encode_utf8(first) + encode_utf8(second),
    decreases first.len(),
{
    if first.len() == 0 {
        assert(first + second =~= second);
        assert(encode_utf8(first) + encode_utf8(second) =~= encode_utf8(second));
    } else {
        let whole = first + second;
        assert(whole[0] == first[0]);
        assert(whole.drop_first() =~= first.drop_first() + second);
        lemma_encode_concat(first.drop_first(), second);
        assert(encode_utf8(whole) =~= encode_utf8(first) + encode_utf8(second));
    }
}

/// The three dots take three bytes.
pub proof fn lemma_ellipsis_bytes()
    ensures
        encode_utf8(ellipsis()).len() == 3,
{
    assert(is_ascii_chars(ellipsis()));
    is_ascii_chars_encode_utf8(ellipsis());
}

/// A text within the limit is its own preview.
pub proof fn lemma_preview_of_short(text: Seq<char>)
    requires
        encode_utf8(text).len() <= PREVIEW_LIMIT,
    ensures
        preview_of(text) == text,
{
}

/// The preview of a text over the limit is a beginning of the text followed
/// by three dots, and takes `PREVIEW_LIMIT + 3` bytes.
pub proof fn lemma_preview_of_long(text: Seq<char>) -> (kept: int)
    requires
        encode_utf8(text).len() > PREVIEW_LIMIT,
        cut_is_clean(text),
    ensures
        0 <= kept <= text.len(),
        preview_of(text) == text.take(kept) + ellipsis(),
        encode_utf8(text.take(kept)) == encode_utf8(text).subrange(0, PREVIEW_LIMIT as int),
        encode_utf8(preview_of(text)).len() == PREVIEW_LIMIT + 3,
{
    let bytes = encode_utf8(text);
    let limit = PREVIEW_LIMIT as int;
    encode_utf8_valid_utf8(text);
    encode_utf8_decode_utf8(text);
    valid_utf8_split(bytes, limit);
    decode_utf8_split(bytes, limit);
    let head = decode_utf8(bytes.subrange(0, limit));
    let tail = decode_utf8(bytes.subrange(limit, bytes.len() as int));
    assert(text =~= head + tail);
    let kept = head.len() as int;
    assert(text.take(kept) =~= head);
    decode_utf8_encode_utf8(bytes.subrange(0, limit));
    lemma_encode_concat(head, ellipsis());
    lemma_ellipsis_bytes();
    kept
}

/// Decodes `data` as UTF-8 with `String::from_utf8_lossy`, which keeps valid
/// data as it is and puts U+FFFD in the place of every invalid sequence. The
/// result is named `lossy_text`; that it equals the plain decoding for valid
/// data is taken from the documentation of the function and not proved here.
#[verifier::external_body]
fn decode_lossy(data: &[u8]) -> (text: String)
    ensures
        text@ == lossy_text(data@),
        valid_utf8(data@) ==> text@ == decode_utf8(data@),
{
    String::from_utf8_lossy(data).into_owned()
}

/// Whether `text` can be cut at the limit without splitting a character.
pub fn has_clean_cut(text: &str) -> (clean: bool)
    ensures
        clean == cut_is_clean(text@),
{
    let length = text.as_bytes().len();
    length <= PREVIEW_LIMIT || text.is_char_boundary(PREVIEW_LIMIT)
}

/// The preview of `text`: the text itself if it has at most `PREVIEW_LIMIT`
/// bytes, its first `PREVIEW_LIMIT` bytes and three dots otherwise. The limit
/// must not fall inside a character.
pub fn preview_text(text: &str) -> (preview: String)
    requires
        cut_is_clean(text@),
    ensures
        preview@ == preview_of(text@),
{
    let length = text.as_bytes().len();
    if length > PREVIEW_LIMIT {
        let (head, _) = text.split_at(PREVIEW_LIMIT);
        proof {
            encode_utf8_decode_utf8(head@);
            reveal_strlit("...");
            assert("..."@ =~= ellipsis());
        }
        head.to_owned().concat("...")
    } else {
        text.to_owned()
    }
}

/// The preview of `data` read as text; bytes that are not valid UTF-8 show as
/// U+FFFD. The limit must not fall inside a character of that text. For data
/// that is valid UTF-8 the text is the data decoded, so the condition can be
/// met without knowing more of lossy decoding.
pub fn preview_data(data: &[u8]) -> (preview: String)
    requires
        cut_is_clean(lossy_text(data@)) || (valid_utf8(data@) && cut_is_clean(
            decode_utf8(data@),
        )),
    ensures
        preview@ == preview_of(lossy_text(data@)),
        valid_utf8(data@) ==> preview@ == preview_of(decode_utf8(data@)),
{
    let text = decode_lossy(data);
    preview_text(text.as_str())
}

/// The preview of `data` read as text, or `None` where the limit falls inside
/// a character of that text and no preview can be cut.
pub fn try_preview_data(data: &[u8]) -> (preview: Option<String>)
    ensures
        preview is Some <==> cut_is_clean(lossy_text(data@)),
        valid_utf8(data@) ==> (preview is Some <==> cut_is_clean(decode_utf8(data@))),
        preview matches Some(shown) ==> shown@ == preview_of(lossy_text(data@)),
        preview matches Some(shown) ==> valid_utf8(data@) ==> shown@ == preview_of(
            decode_utf8(data@),
        ),
{
    let text = decode_lossy(data);
    if has_clean_cut(text.as_str()) {
        Some(preview_data(data))
    } else {
        None
    }
}

} // verus!
