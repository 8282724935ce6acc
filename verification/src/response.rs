//! What goes back to the caller: the status, the headers and the body, and
//! the name under which the audio is kept.

use vstd::prelude::*;
use vstd::string::*;
use crate::error::{PipelineError, STATUS_OK};
use crate::text::{all_digits, digit_value, digits_value, is_digit, unsigned_of, unsigned_part};
use crate::wav::{is_container, WavFile};

verus! {

/// The character of a decimal digit.
pub open spec fn digit_char(d: int) -> char {
    (48 + d) as char
}

/// The decimal numeral of `n`, without sign or leading zeros.
pub open spec fn decimal_digits(n: nat) -> Seq<char>
    decreases n,
{
    if n < 10 {
        seq![digit_char(n as int)]
    } else {
        decimal_digits(n / 10).push(digit_char((n % 10) as int))
    }
}

/// Media type of a successful response.
pub const AUDIO_CONTENT_TYPE: &'static str = "audio/wav";

/// Directory in which generated audio is kept.
pub const AUDIO_DIRECTORY: &'static str = "./public/audio";

/// Media type of a successful response.
pub open spec fn audio_content_type() -> Seq<char> {
    "audio/wav"@
}

/// The file name of the audio generated at `timestamp` seconds.
pub open spec fn file_name_of(timestamp: u64) -> Seq<char> {
    "generated_audio_"@ + decimal_digits(timestamp as nat) + ".wav"@
}

/// Where the file called `name` is kept.
pub open spec fn file_path_of(name: Seq<char>) -> Seq<char> {
    "./public/audio"@ + "/"@ + name
}

/// The header that offers the body for download as `name`.
pub open spec fn disposition_of(name: Seq<char>) -> Seq<char> {
    "attachment; filename=\""@ + name + "\""@
}

/// The one-character string of a digit.
fn digit_text(d: u64) -> (s: &'static str)
    requires
        d < 10,
    ensures
        s@ == seq![digit_char(d as int)],
{
    proof {
        reveal_strlit("0");
        reveal_strlit("1");
        reveal_strlit("2");
        reveal_strlit("3");
        reveal_strlit("4");
        reveal_strlit("5");
        reveal_strlit("6");
        reveal_strlit("7");
        reveal_strlit("8");
        reveal_strlit("9");
    }
    let s = if d == 0 {
        "0"
    } else if d == 1 {
        "1"
    } else if d == 2 {
        "2"
    } else if d == 3 {
        "3"
    } else if d == 4 {
        "4"
    } else if d == 5 {
        "5"
    } else if d == 6 {
        "6"
    } else if d == 7 {
        "7"
    } else if d == 8 {
        "8"
    } else {
        "9"
    };
    assert(s@ =~= seq![digit_char(d as int)]);
    s
}

/// Appends the decimal numeral of `n` to `out`.
fn push_decimal(out: &mut String, n: u64)
    ensures
        final(out)@ == old(out)@ + decimal_digits(n as nat),
    decreases n,
{
    if n < 10 {
        out.append(digit_text(n));
    } else {
        push_decimal(out, n / 10);
        out.append(digit_text(n % 10));
        assert(out@ =~= old(out)@ + decimal_digits(n as nat));
    }
}

/// The decimal numeral of `n`.
pub fn decimal_text(n: u64) -> (s: String)
    ensures
        s@ == decimal_digits(n as nat),
{
    let mut s = String::new();
    push_decimal(&mut s, n);
    assert(s@ =~= decimal_digits(n as nat));
    s
}

/// The file name of the audio generated at `timestamp` seconds since the
/// epoch.
pub fn audio_file_name(timestamp: u64) -> (name: String)
    ensures
        name@ == file_name_of(timestamp),
{
    let mut name = String::from_str("generated_audio_");
    push_decimal(&mut name, timestamp);
    name.append(".wav");
    name
}

/// Where the file called `name` is kept.
pub fn audio_file_path(name: &str) -> (path: String)
    ensures
        path@ == file_path_of(name@),
{
    let mut path = String::from_str(AUDIO_DIRECTORY);
    path.append("/");
    path.append(name);
    path
}

/// The header that offers the body for download as `name`.
pub fn content_disposition(name: &str) -> (header: String)
    ensures
        header@ == disposition_of(name@),
{
    let mut header = String::from_str("attachment; filename=\"");
    header.append(name);
    header.append("\"");
    header
}

/// A response, ready to be sent.
pub struct Reply {
    pub status: u16,
    pub content_type: Option<String>,
    pub content_disposition: Option<String>,
    pub body: Vec<u8>,
}

/// The response to a request that ended in `outcome`.
///
/// A container is sent with status 200, its media type and a download
/// name; it is sent whole and unchanged.  A failure is sent with its status
/// and nothing else: 400 for a rejected request, 500 for anything that
/// went wrong inside.
pub fn reply(outcome: Result<WavFile, PipelineError>, file_name: &str) -> (r: Reply)
    ensures
        match outcome {
            Ok(wav) => {
                &&& r.status == 200
                &&& r.body@ == wav@
                &&& is_container(r.body@)
                &&& r.content_type matches Some(t) && t@ == audio_content_type()
                &&& r.content_disposition matches Some(d) && d@ == disposition_of(file_name@)
            },
            Err(e) => {
                &&& r.status == e.status_spec()
                &&& r.body@.len() == 0
                &&& r.content_type is None
                &&& r.content_disposition is None
            },
        },
{
    match outcome {
        Ok(wav) => Reply {
            status: STATUS_OK,
            content_type: Some(String::from_str(AUDIO_CONTENT_TYPE)),
            content_disposition: Some(content_disposition(file_name)),
            body: wav.into_bytes(),
        },
        Err(e) => Reply {
            status: e.status(),
            content_type: None,
            content_disposition: None,
            body: Vec::new(),
        },
    }
}

/// A numeral is made of digits only and is worth the number it was made of.
pub proof fn lemma_decimal_digits(n: nat)
    ensures
        decimal_digits(n).len() > 0,
        all_digits(decimal_digits(n)),
        digits_value(decimal_digits(n)) == n,
    decreases n,
{
    if n < 10 {
        let s = decimal_digits(n);
        assert(s.drop_last() =~= Seq::<char>::empty());
        assert(digits_value(s.drop_last()) == 0);
        assert(s.last() == digit_char(n as int));
        assert(is_digit(s[0]));
    } else {
        lemma_decimal_digits(n / 10);
        let init = decimal_digits(n / 10);
        let s = decimal_digits(n);
        assert(s.drop_last() =~= init);
        assert(s.last() == digit_char((n % 10) as int));
        assert(digit_value(s.last()) == n % 10);
        assert forall|i: int| 0 <= i < s.len() implies is_digit(#[trigger] s[i]) by {
            if i < init.len() {
                assert(s[i] == init[i]);
            }
        }
    }
}

/// Reading the numeral written for a number gives the number back.
pub proof fn lemma_decimal_round_trip(n: u64)
    ensures
        unsigned_of(decimal_digits(n as nat)) == Some(n),
{
    lemma_decimal_digits(n as nat);
    let s = decimal_digits(n as nat);
    assert(is_digit(s[0]));
    assert(s[0] != '+');
    assert(unsigned_part(s) == s);
}

/// Audio generated at different seconds is kept under different names.
pub proof fn lemma_file_names_differ(a: u64, b: u64)
    requires
        a != b,
    ensures
        file_name_of(a) != file_name_of(b),
{
    let prefix = "generated_audio_"@;
    let suffix = ".wav"@;
    let da = decimal_digits(a as nat);
    let db = decimal_digits(b as nat);
    lemma_decimal_digits(a as nat);
    lemma_decimal_digits(b as nat);
    let fa = prefix + da + suffix;
    let fb = prefix + db + suffix;
    if fa == fb {
        assert(fa.len() == prefix.len() + da.len() + suffix.len());
        assert(fb.len() == prefix.len() + db.len() + suffix.len());
        assert(fa.subrange(prefix.len() as int, (prefix.len() + da.len()) as int) =~= da);
        assert(fb.subrange(prefix.len() as int, (prefix.len() + db.len()) as int) =~= db);
        assert(da == db);
    }
}

} // verus!
