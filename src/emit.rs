use vstd::prelude::*;

verus! {

/// The character of a decimal digit.
pub open spec fn digit_char(d: nat) -> char {
    seq!['0', '1', '2', '3', '4', '5', '6', '7', '8', '9'][d as int]
}

/// The decimal digits of `n`, most significant first, without leading zeros.
pub open spec fn digits_of(n: nat) -> Seq<char>
    decreases n,
{
    if n < 10 {
        seq![digit_char(n)]
    } else {
        digits_of(n / 10) + seq![digit_char(n % 10)]
    }
}

/// `i` written in decimal, with a leading '-' when negative.
pub open spec fn decimal_text(i: int) -> Seq<char> {
    if i < 0 {
        seq!['-'] + digits_of((-i) as nat)
    } else {
        digits_of(i as nat)
    }
}

/// The extension of the files written.
pub open spec fn md_extension() -> Seq<char> {
    seq!['.', 'm', 'd']
}

/// The line that opens and closes the front matter.
pub open spec fn front_matter_delimiter() -> Seq<char> {
    seq!['+', '+', '+', '\n']
}

/// The whole text of a post's file.
pub open spec fn file_text(header: Seq<char>, body: Seq<char>) -> Seq<char> {
    front_matter_delimiter() + header + front_matter_delimiter() + body
}

fn append_digits(out: &mut String, n: u64)
    ensures
        final(out)@ == old(out)@ + digits_of(n as nat),
    decreases n,
{
    if n >= 10 {
        append_digits(out, n / 10);
    }
    let d = (n % 10) as usize;
    proof {
        reveal_strlit("0123456789");
    }
    let digit = "0123456789".substring_char(d, d + 1);
    out.append(digit);
    proof {
        reveal_strlit("0123456789");
        assert(digit@ =~= seq![digit_char(d as nat)]);
        assert(n < 10 ==> n % 10 == n);
    }
}

/// `base` followed by `id` in decimal: the address of one post.
pub fn detail_url(base: &str, id: i32) -> (r: String)
    ensures
        r@ == base@ + decimal_text(id as int),
{
    let mut out = String::from_str(base);
    if id < 0 {
        out.append("-");
        proof {
            reveal_strlit("-");
        }
        let magnitude = (0i64 - id as i64) as u64;
        append_digits(&mut out, magnitude);
        proof {
            assert(base@ + decimal_text(id as int) =~= base@ + seq!['-'] + digits_of(magnitude as nat));
        }
    } else {
        append_digits(&mut out, id as u64);
    }
    out
}

/// The name of the file for a post with this title: the title as it is, with
/// the markdown extension.
pub fn file_name(title: &str) -> (r: String)
    ensures
        r@ == title@ + md_extension(),
{
    let mut out = String::from_str(title);
    out.append(".md");
    proof {
        reveal_strlit(".md");
        assert(".md"@ =~= md_extension());
    }
    out
}

/// A post's file: the rendered front matter between two delimiter lines, then
/// the body.
pub fn frame_file(header: &str, body: &str) -> (r: String)
    ensures
        r@ == file_text(header@, body@),
{
    let mut out = String::from_str("+++\n");
    out.append(header);
    out.append("+++\n");
    out.append(body);
    proof {
        reveal_strlit("+++\n");
        assert("+++\n"@ =~= front_matter_delimiter());
    }
    out
}

} // verus!
