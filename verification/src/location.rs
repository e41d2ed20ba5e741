//! Where the first commit of a table goes.
use url::Url;
use vstd::prelude::*;

use crate::error::{ErrorKind, SimpleError};

verus! {

#[verifier::external_type_specification]
#[verifier::external_body]
pub struct ExUrl(Url);

/// The text of a URL.
pub uninterp spec fn url_text(url: Url) -> Seq<char>;

/// Whether a URL is one that was parsed, and not changed since. Only of such URLs does the text
/// tell the parts.
pub uninterp spec fn url_as_parsed(url: Url) -> bool;

/// The text of the URL that a text parses to, or why it does not parse.
pub uninterp spec fn url_parsed(text: Seq<char>) -> Result<Seq<char>, url::ParseError>;

/// The text of the URL that a reference resolves to against a base that was parsed, or why it does
/// not resolve.
pub uninterp spec fn url_joined(base: Seq<char>, reference: Seq<char>) -> Result<
    Seq<char>,
    url::ParseError,
>;

/// Whether the first colon in the text is followed by a slash, as in a URL that is not opaque.
pub open spec fn is_hierarchical(text: Seq<char>) -> bool {
    exists|i: int|
        {
            &&& 0 <= i < text.len() - 1
            &&& #[trigger] text[i] == ':'
            &&& text[i + 1] == '/'
            &&& !text.take(i).contains(':')
        }
}

/// Whether the text of a URL names a directory: a path that ends in a slash, with no query and no
/// fragment behind it.
pub open spec fn is_directory(text: Seq<char>) -> bool {
    &&& is_hierarchical(text)
    &&& text.last() == '/'
    &&& !(seq![':', '/', '/'].is_suffix_of(text))
    &&& !text.contains('?')
    &&& !text.contains('#')
}

/// Whether the character is an ASCII letter, an ASCII digit or an underscore.
pub open spec fn is_word_char(c: char) -> bool {
    ||| 'a' <= c <= 'z'
    ||| 'A' <= c <= 'Z'
    ||| '0' <= c <= '9'
    ||| c == '_'
}

/// Whether the reference is a relative path of ordinary segments: it is made of word characters,
/// slashes and dots, and starts with a word character, and every dot follows a word character.
pub open spec fn is_plain_path(reference: Seq<char>) -> bool {
    &&& reference.len() > 0
    &&& is_word_char(reference[0])
    &&& forall|i: int|
        0 < i < reference.len() ==> {
            ||| is_word_char(#[trigger] reference[i])
            ||| reference[i] == '/'
            ||| reference[i] == '.' && is_word_char(reference[i - 1])
        }
}

/// Whether a path segment that starts at the given place is a drive letter: an ASCII letter with a
/// colon or a bar behind it.
pub open spec fn is_drive(text: Seq<char>, i: int) -> bool {
    &&& 0 <= i < text.len() - 2
    &&& 'a' <= text[i] <= 'z' || 'A' <= text[i] <= 'Z'
    &&& text[i + 1] == ':' || text[i + 1] == '|'
    &&& text[i + 2] == '/'
}

/// Whether the parser leaves the drive letters in the text of a `file` URL alone.
///
/// It rewrites one that comes first in the path behind a host. Without a host it rewrites none;
/// but it can leave a dot segment behind a drive letter, to be taken out by the next parse.
pub open spec fn drives_settled(text: Seq<char>) -> bool {
    if text[7] == '/' {
        is_drive(text, 8) && text.len() > 11 ==> text[11] != '.' && text[11] != '%'
    } else {
        forall|i: int|
            7 <= i < text.len() && #[trigger] text[i] == '/' && !text.subrange(7, i).contains('/')
                ==> !is_drive(text, i + 1)
    }
}

/// Whether the text of a URL that was parsed is one that parses to itself: it names a directory,
/// has no internationalized host, which is one with `xn--` in it, and, under the scheme `file`, no
/// drive letter that is rewritten.
///
/// Internationalized hosts are left out because one with a very long label is written in a form
/// that does not parse.
pub open spec fn is_settled(text: Seq<char>) -> bool {
    &&& is_directory(text)
    &&& forall|i: int|
        0 <= i < text.len() - 3 && #[trigger] text[i] == 'x' && text[i + 1] == 'n' && text[i + 2]
            == '-' && text[i + 3] == '-' ==> text.take(i).to_multiset().count('/') >= 3
    &&& seq!['f', 'i', 'l', 'e', ':', '/', '/'].is_prefix_of(text) ==> drives_settled(text)
}

/// The text with a slash at its end.
pub open spec fn slash_ended(text: Seq<char>) -> Seq<char> {
    if text.len() > 0 && text.last() == '/' {
        text
    } else {
        text.push('/')
    }
}

/// The path of the first commit file below the table root: version 0, written with 20 digits.
pub open spec fn commit_file() -> Seq<char> {
    "_delta_log/"@ + Seq::new(20, |i: int| '0') + ".json"@
}

/// The text of the first commit's URL, for the text of the table root.
pub open spec fn commit_text(root: Seq<char>) -> Result<Seq<char>, ErrorKind> {
    match url_parsed(slash_ended(root)) {
        Err(e) => Err(ErrorKind::Root(e)),
        Ok(base) => match url_joined(base, commit_file()) {
            Err(e) => Err(ErrorKind::Commit(e)),
            Ok(text) => Ok(text),
        },
    }
}

/// `Url::to_string`: the text of the URL.
#[verifier::external_body]
fn url_to_string(url: &Url) -> (text: String)
    ensures
        text@ == url_text(*url),
{
    url.to_string()
}

/// `Url::parse`. What a text parses to, or why it does not, is a function of the text. The text of
/// the URL parses to itself where [`is_settled`] says so; of other texts that is left unsaid.
#[verifier::external_body]
fn parse_url(text: &str) -> (result: Result<Url, url::ParseError>)
    ensures
        match result {
            Ok(url) => url_as_parsed(url) && url_parsed(text@) == Ok::<Seq<char>, url::ParseError>(
                url_text(url),
            ),
            Err(e) => url_parsed(text@) == Err::<Seq<char>, url::ParseError>(e),
        },
        result matches Ok(url) ==> (is_settled(url_text(url)) ==> url_parsed(url_text(url)) == Ok::<
            Seq<char>,
            url::ParseError,
        >(url_text(url))),
{
    Url::parse(text)
}

/// `Url::join` on a base that was parsed. What a reference resolves to, or why it does not, is a
/// function of the base's text and the reference. A plain path is appended to the text of a base
/// that names a directory, and does not resolve against a base that is opaque.
#[verifier::external_body]
fn join_url(base: &Url, reference: &str) -> (result: Result<Url, url::ParseError>)
    requires
        url_as_parsed(*base),
    ensures
        match result {
            Ok(url) => url_joined(url_text(*base), reference@) == Ok::<
                Seq<char>,
                url::ParseError,
            >(url_text(url)),
            Err(e) => url_joined(url_text(*base), reference@) == Err::<
                Seq<char>,
                url::ParseError,
            >(e),
        },
        (is_directory(url_text(*base)) && is_plain_path(reference@)) ==> (match result {
            Ok(url) => url_text(url) == url_text(*base) + reference@,
            Err(_) => false,
        }),
        (!is_hierarchical(url_text(*base)) && is_plain_path(reference@)) ==> result is Err,
{
    base.join(reference)
}

/// The text with a slash put at its end, unless there is one.
pub fn with_trailing_slash(text: String) -> (ended: String)
    ensures
        ended@ == slash_ended(text@),
{
    let mut ended = text;
    let len: usize = ended.as_str().unicode_len();
    if len == 0 || ended.as_str().get_char(len - 1) != '/' {
        ended.append("/");
        proof {
            reveal_strlit("/");
            assert(ended@ =~= text@.push('/'));
        }
    }
    ended
}

/// The path of the first commit file is plain.
pub(crate) proof fn lemma_commit_file()
    ensures
        "_delta_log/00000000000000000000.json"@ == commit_file(),
        is_plain_path(commit_file()),
{
    reveal_strlit("_delta_log/00000000000000000000.json");
    reveal_strlit("_delta_log/");
    reveal_strlit(".json");
    assert("_delta_log/00000000000000000000.json"@ =~= commit_file());
}

/// The URL of the first commit of the table with the given root. It is the root with the commit
/// file's path behind it, where the root names a directory.
///
/// A slash at the end of the root makes no difference: the URL that the root parses to with a slash
/// at its end has the same first commit, where that URL's text is the root's with the slash, or one
/// that parses to itself.
pub fn commit_url(table_root: &Url) -> (result: Result<Url, SimpleError>)
    ensures
        match result {
            Ok(url) => commit_text(url_text(*table_root)) == Ok::<Seq<char>, ErrorKind>(
                url_text(url),
            ),
            Err(e) => commit_text(url_text(*table_root)) == Err::<Seq<char>, ErrorKind>(e@),
        },
        match url_parsed(slash_ended(url_text(*table_root))) {
            Ok(base) => {
                &&& is_directory(base) ==> (result matches Ok(url) && url_text(url) == base
                    + commit_file())
                &&& !is_hierarchical(base) ==> (result matches Err(e) && e@ is Commit)
                &&& base == slash_ended(url_text(*table_root)) || is_settled(base)
                    ==> commit_text(base) == commit_text(url_text(*table_root))
            },
            Err(_) => result is Err,
        },
{
    let root_text = with_trailing_slash(url_to_string(table_root));
    let normalized_root = match parse_url(root_text.as_str()) {
        Ok(url) => url,
        Err(e) => {
            return Err(SimpleError::Root(e));
        },
    };
    proof {
        lemma_commit_file();
    }
    match join_url(&normalized_root, "_delta_log/00000000000000000000.json") {
        Ok(url) => Ok(url),
        Err(e) => Err(SimpleError::Commit(e)),
    }
}

} // verus!
