//! From an emoji to the file that holds its bitmap.
//!
//! An asset is named after the code points of its emoji, in lower-case
//! hexadecimal: `emoji_u1f600.png`, `emoji_u1f44d_1f3fd.png`. Where the file
//! for the whole sequence is missing, the one for the sequence without its
//! last code point (a variation selector, a skin tone) is taken instead.
//! Whether a file exists is for the caller to find out.

use crate::text::chars_of;
use vstd::prelude::*;
use vstd::string::*;

verus! {

/// Why no asset was found.
#[derive(Clone, Copy, Debug, PartialEq, Eq, Structural)]
pub enum ResolveError {
    /// Neither the asset of the emoji nor its fallback exists.
    NotFound,
}

/// The files that may hold the bitmap of an emoji, in order of preference.
#[derive(Debug, PartialEq, Eq)]
pub struct Candidates {
    /// The asset of the whole code point sequence.
    pub primary: String,
    /// The asset of the sequence without its last code point, where the
    /// emoji has more than one.
    pub fallback: Option<String>,
}

/// The digit for `d`, which is below 16.
pub open spec fn hex_digit(d: nat) -> char {
    if d < 10 {
        (0x30 + d) as char
    } else {
        (0x61 + d - 10) as char
    }
}

/// `n` in lower-case hexadecimal, without leading zeros.
pub open spec fn hex(n: nat) -> Seq<char>
    decreases n,
{
    if n < 16 {
        seq![hex_digit(n)]
    } else {
        hex(n / 16).push(hex_digit(n % 16))
    }
}

/// The code points of `emoji` in hexadecimal, joined by underscores.
pub open spec fn code_points(emoji: Seq<char>) -> Seq<char>
    decreases emoji.len(),
{
    if emoji.len() == 0 {
        Seq::empty()
    } else if emoji.len() == 1 {
        hex(emoji[0] as nat)
    } else {
        code_points(emoji.drop_last()) + seq!['_'] + hex(emoji.last() as nat)
    }
}

/// What every token starts with.
pub open spec fn token_prefix() -> Seq<char> {
    seq!['e', 'm', 'o', 'j', 'i', '_', 'u']
}

/// The file-name token of `emoji`; the empty emoji has the empty token.
pub open spec fn token_of(emoji: Seq<char>) -> Seq<char> {
    if emoji.len() == 0 {
        Seq::empty()
    } else {
        token_prefix() + code_points(emoji)
    }
}

/// The file of a token in a directory.
pub open spec fn path_of(asset_dir: Seq<char>, token: Seq<char>) -> Seq<char> {
    asset_dir + seq!['/'] + token + seq!['.', 'p', 'n', 'g']
}

/// The asset of the whole emoji.
pub open spec fn primary_path(emoji: Seq<char>, asset_dir: Seq<char>) -> Seq<char> {
    path_of(asset_dir, token_of(emoji))
}

/// The asset of the emoji without its last code point, where it has more
/// than one.
pub open spec fn fallback_path(emoji: Seq<char>, asset_dir: Seq<char>) -> Option<Seq<char>> {
    if emoji.len() >= 2 {
        Some(path_of(asset_dir, token_of(emoji.drop_last())))
    } else {
        None
    }
}

/// The asset to show: the primary one where it exists, else the fallback
/// where there is one and it exists.
pub open spec fn resolution(
    emoji: Seq<char>,
    asset_dir: Seq<char>,
    primary_exists: bool,
    fallback_exists: bool,
) -> Result<Seq<char>, ResolveError> {
    if primary_exists {
        Ok(primary_path(emoji, asset_dir))
    } else if fallback_exists && emoji.len() >= 2 {
        Ok(path_of(asset_dir, token_of(emoji.drop_last())))
    } else {
        Err(ResolveError::NotFound)
    }
}

/// The text of an optional string.
pub open spec fn text_of(s: Option<String>) -> Option<Seq<char>> {
    match s {
        Some(s) => Some(s@),
        None => None,
    }
}

/// The text of a resolved path, or the error.
pub open spec fn resolved(r: Result<String, ResolveError>) -> Result<Seq<char>, ResolveError> {
    match r {
        Ok(path) => Ok(path@),
        Err(e) => Err(e),
    }
}

/// The digit for `d`, as a string.
fn hex_digit_str(d: u32) -> (s: &'static str)
    requires
        d < 16,
    ensures
        s@ == seq![hex_digit(d as nat)],
{
    let s = match d {
        0 => "0",
        1 => "1",
        2 => "2",
        3 => "3",
        4 => "4",
        5 => "5",
        6 => "6",
        7 => "7",
        8 => "8",
        9 => "9",
        10 => "a",
        11 => "b",
        12 => "c",
        13 => "d",
        14 => "e",
        _ => "f",
    };
    proof {
        reveal_strlit("0");
        reveal_strlit("1");
        reveal_strlit("2");
        reveal_strlit("3");
        reveal_strlit("4");
        reveal_strlit("5");
        reveal_strlit("6");
        reveal_strlit("7");
        reveal_strlit("8");
        reveal_strlit("9");
        reveal_strlit("a");
        reveal_strlit("b");
        reveal_strlit("c");
        reveal_strlit("d");
        reveal_strlit("e");
        reveal_strlit("f");
        assert(s@ =~= seq![hex_digit(d as nat)]);
    }
    s
}

/// Appends `n` in hexadecimal.
fn push_hex(out: &mut String, n: u32)
    ensures
        final(out)@ == old(out)@ + hex(n as nat),
    decreases n,
{
    if n >= 16 {
        push_hex(out, n / 16);
    }
    out.append(hex_digit_str(n % 16));
    proof {
        if n >= 16 {
            assert(final(out)@ =~= old(out)@ + hex((n / 16) as nat).push(hex_digit((n % 16) as nat)));
        } else {
            assert(final(out)@ =~= old(out)@ + seq![hex_digit(n as nat)]);
        }
    }
}

/// Appends the code point of `c` in hexadecimal.
fn push_code_point(out: &mut String, c: char)
    ensures
        final(out)@ == old(out)@ + hex(c as nat),
{
    push_hex(out, c as u32);
}

/// The token of the first `count` characters of `emoji`.
fn token_for(emoji: &[char], count: usize) -> (token: String)
    requires
        count <= emoji.len(),
    ensures
        token@ == token_of(emoji@.take(count as int)),
{
    let mut token = String::new();
    if count == 0 {
        return token;
    }
    token.append("emoji_u");
    proof {
        reveal_strlit("emoji_u");
        assert(token@ =~= token_prefix() + code_points(emoji@.take(0)));
    }
    let mut i: usize = 0;
    while i < count
        invariant
            i <= count <= emoji.len(),
            token@ == token_prefix() + code_points(emoji@.take(i as int)),
        decreases count - i,
    {
        let ghost before = token@;
        if i > 0 {
            token.append("_");
        }
        let ghost joined = token@;
        push_code_point(&mut token, emoji[i]);
        proof {
            reveal_strlit("_");
            let now = emoji@.take(i + 1);
            let last = hex(emoji[i as int] as nat);
            assert(now.drop_last() =~= emoji@.take(i as int));
            assert(token@ == joined + last);
            if i > 0 {
                assert(joined =~= before + seq!['_']);
                assert(code_points(now) == code_points(now.drop_last()) + seq!['_'] + last);
                assert(token@ =~= token_prefix() + code_points(now));
            } else {
                assert(code_points(now) == last);
            }
        }
        i += 1;
    }
    token
}

/// The file of a token in a directory.
fn asset_path(asset_dir: &str, token: &str) -> (path: String)
    ensures
        path@ == path_of(asset_dir@, token@),
{
    let mut path = asset_dir.to_owned();
    path.append("/");
    path.append(token);
    path.append(".png");
    proof {
        reveal_strlit("/");
        reveal_strlit(".png");
        assert(path@ =~= path_of(asset_dir@, token@));
    }
    path
}

/// The file-name token of an emoji: `emoji_u` and the code points in
/// lower-case hexadecimal, joined by underscores.
pub fn asset_token(emoji: &str) -> (token: String)
    ensures
        token@ == token_of(emoji@),
{
    let chars = chars_of(emoji);
    assert(chars@.take(chars@.len() as int) =~= emoji@);
    token_for(chars.as_slice(), chars.len())
}

/// The files that may hold the bitmap of `emoji` under `asset_dir`.
pub fn candidates(emoji: &str, asset_dir: &str) -> (c: Candidates)
    ensures
        c.primary@ == primary_path(emoji@, asset_dir@),
        text_of(c.fallback) == fallback_path(emoji@, asset_dir@),
{
    let chars = chars_of(emoji);
    let n = chars.len();
    assert(chars@.take(n as int) =~= emoji@);
    let token = token_for(chars.as_slice(), n);
    let primary = asset_path(asset_dir, token.as_str());
    let fallback = if n >= 2 {
        assert(chars@.take(n - 1) =~= emoji@.drop_last());
        let shorter = token_for(chars.as_slice(), n - 1);
        Some(asset_path(asset_dir, shorter.as_str()))
    } else {
        None
    };
    Candidates { primary, fallback }
}

impl Candidates {
    /// Picks the asset to show, given which of the candidates exist: the
    /// primary one if it does, else the fallback if there is one and it
    /// does. Fails with `NotFound` otherwise.
    pub fn select(self, primary_exists: bool, fallback_exists: bool) -> (r: Result<
        String,
        ResolveError,
    >)
        ensures
            resolved(r) == if primary_exists {
                Ok::<Seq<char>, ResolveError>(self.primary@)
            } else if fallback_exists && self.fallback is Some {
                Ok::<Seq<char>, ResolveError>(self.fallback.unwrap()@)
            } else {
                Err::<Seq<char>, ResolveError>(ResolveError::NotFound)
            },
    {
        if primary_exists {
            return Ok(self.primary);
        }
        match self.fallback {
            Some(path) if fallback_exists => Ok(path),
            _ => Err(ResolveError::NotFound),
        }
    }
}

/// Resolves `emoji` to its asset under `asset_dir`, given whether the
/// primary candidate and the fallback candidate exist.
pub fn resolve(emoji: &str, asset_dir: &str, primary_exists: bool, fallback_exists: bool) -> (r:
    Result<String, ResolveError>)
    ensures
        resolved(r) == resolution(emoji@, asset_dir@, primary_exists, fallback_exists),
{
    candidates(emoji, asset_dir).select(primary_exists, fallback_exists)
}

/// No hexadecimal number holds an underscore.
pub proof fn lemma_hex_has_no_underscore(n: nat)
    ensures
        hex(n).len() >= 1,
        !hex(n).contains('_'),
    decreases n,
{
    if n >= 16 {
        lemma_hex_has_no_underscore(n / 16);
        let head = hex(n / 16);
        assert forall|j: int| 0 <= j < hex(n).len() implies hex(n)[j] != '_' by {
            if j < head.len() {
                assert(head.contains(hex(n)[j]));
            }
        }
    }
}

/// The token of the fallback is the token of the emoji, cut at its last
/// underscore: the emoji's token is the fallback's, an underscore, and the
/// last code point, which holds no underscore.
pub proof fn law_fallback_strips_last_component(emoji: Seq<char>)
    requires
        emoji.len() >= 2,
    ensures
        token_of(emoji) == token_of(emoji.drop_last()) + seq!['_'] + hex(emoji.last() as nat),
        !hex(emoji.last() as nat).contains('_'),
{
    lemma_hex_has_no_underscore(emoji.last() as nat);
    assert(token_of(emoji) =~= token_of(emoji.drop_last()) + seq!['_'] + hex(emoji.last() as nat));
}

} // verus!
