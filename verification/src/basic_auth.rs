//! HTTP Basic authentication of the git routes: an owner's name and one
//! of the API tokens of the owner's projects.
use vstd::prelude::*;
use vstd::utf8::{decode_utf8, encode_utf8, valid_utf8};
use vstd::string::StringSliceAdditionalSpecFns;
use crate::password::{argon2_verifies, password_matches};
use crate::text::{
    find_char, first_piece, first_two_pieces, first_two_words, first_word, is_whitespace,
    lemma_find_char_bounds, lemma_skip_space_bounds, lemma_word_end_bounds, second_piece,
    second_word, skip_space, str_eq, word_end,
};

verus! {

/// What `data_encoding::BASE64.decode` gives for `input`: the decoded
/// bytes, or nothing where `input` is not padded standard base64.
pub uninterp spec fn base64_decoded(input: Seq<u8>) -> Option<Seq<u8>>;

/// `data_encoding::BASE64.decode(input).ok()`.
#[verifier::external_body]
pub(crate) fn base64_decode(input: &[u8]) -> (r: Option<Vec<u8>>)
    ensures
        match r {
            Some(v) => base64_decoded(input@) == Some(v@),
            None => base64_decoded(input@) is None,
        },
{
    data_encoding::BASE64.decode(input).ok()
}

/// `String::from_utf8(bytes).ok()`: the text that `bytes` encode, where
/// they are valid UTF-8.
#[verifier::external_body]
pub(crate) fn utf8_string(bytes: Vec<u8>) -> (r: Option<String>)
    ensures
        r is Some <==> valid_utf8(bytes@),
        r matches Some(s) ==> s@ == decode_utf8(bytes@),
{
    String::from_utf8(bytes).ok()
}

/// The first step of authenticating a git request.
pub enum GitAuthStep {
    /// Authentication is switched off: the request goes through.
    Allow,
    /// No usable `Authorization` header: answer 401 with the `git` realm.
    Challenge,
    /// The header's token is not base64 of UTF-8 text; the request is
    /// not answered.
    Undecodable,
    /// Look up the API token hashes of the projects of `owner` and check
    /// `password` against them.
    Lookup { owner: String, password: String },
}

/// What came of looking up an owner's API token hashes.
pub enum TokenLookup {
    Found(Vec<String>),
    NotFound,
    Failed,
}

/// How a git request is answered once the tokens are known.
#[derive(PartialEq, Eq, Structural)]
pub enum GitAuthVerdict {
    /// Some token accepts the password: the request goes through.
    Allow,
    /// 401 with the `git` realm.
    Challenge,
    /// 401 with the realm `failed to login`.
    Refuse,
}

/// The user name and password of a Basic `Authorization` header: its
/// token decoded from base64 and read as UTF-8, then the first two pieces
/// of it split at `:`; nothing where the token is not base64 or not UTF-8.
pub open spec fn spec_credentials(header: Seq<char>) -> Option<(Seq<char>, Seq<char>)> {
    match base64_decoded(encode_utf8(second_word(header))) {
        None => None,
        Some(b) => if valid_utf8(b) {
            let d = decode_utf8(b);
            Some((first_piece(d, ':'), second_piece(d, ':')))
        } else {
            None
        },
    }
}

/// Reads the `Authorization` header of a git request (`None` where it is
/// missing or not visible ASCII).
pub fn git_auth_start(git_auth: bool, authorization: Option<&str>) -> (r: GitAuthStep)
    ensures
        !git_auth ==> r is Allow,
        git_auth && authorization is None ==> r is Challenge,
        git_auth ==> (authorization matches Some(h) ==> {
            if first_word(h@) != "Basic"@ {
                r is Challenge
            } else {
                match spec_credentials(h@) {
                    None => r is Undecodable,
                    Some(c) => r matches GitAuthStep::Lookup { owner, password } && owner@ == c.0
                        && password@ == c.1,
                }
            }
        }),
{
    if !git_auth {
        return GitAuthStep::Allow;
    }
    let h = match authorization {
        None => {
            return GitAuthStep::Challenge;
        },
        Some(h) => h,
    };
    let (scheme, token) = first_two_words(h);
    if !str_eq(scheme.as_str(), "Basic") {
        return GitAuthStep::Challenge;
    }
    let decoded = match base64_decode(token.as_str().as_bytes()) {
        None => {
            return GitAuthStep::Undecodable;
        },
        Some(d) => d,
    };
    let text = match utf8_string(decoded) {
        None => {
            return GitAuthStep::Undecodable;
        },
        Some(t) => t,
    };
    let (owner, password) = first_two_pieces(text.as_str(), ':');
    GitAuthStep::Lookup { owner, password }
}

/// Whether some hash among `hashes` accepts `password`.
pub open spec fn some_hash_accepts(hashes: Seq<String>, password: Seq<u8>) -> bool {
    exists|i: int| 0 <= i < hashes.len() && argon2_verifies(#[trigger] hashes[i]@, password)
}

pub fn any_hash_accepts(hashes: &Vec<String>, password: &str) -> (r: bool)
    ensures
        r == some_hash_accepts(hashes@, encode_utf8(password@)),
{
    let bytes = password.as_bytes();
    let mut i: usize = 0;
    while i < hashes.len()
        invariant
            i <= hashes@.len(),
            bytes@ == encode_utf8(password@),
            forall|j: int| 0 <= j < i ==> !argon2_verifies(#[trigger] hashes@[j]@, bytes@),
        decreases hashes.len() - i,
    {
        if password_matches(hashes[i].as_str(), bytes) {
            return true;
        }
        i = i + 1;
    }
    false
}

pub open spec fn spec_git_auth_finish(lookup: TokenLookup, password: Seq<char>) -> GitAuthVerdict {
    match lookup {
        TokenLookup::Found(hashes) => if some_hash_accepts(hashes@, encode_utf8(password)) {
            GitAuthVerdict::Allow
        } else {
            GitAuthVerdict::Refuse
        },
        TokenLookup::NotFound => GitAuthVerdict::Refuse,
        TokenLookup::Failed => GitAuthVerdict::Challenge,
    }
}

/// Decides a git request once the owner's token hashes have been looked
/// up.
pub fn git_auth_finish(lookup: TokenLookup, password: &str) -> (r: GitAuthVerdict)
    ensures
        r == spec_git_auth_finish(lookup, password@),
{
    match lookup {
        TokenLookup::Found(hashes) => if any_hash_accepts(&hashes, password) {
            GitAuthVerdict::Allow
        } else {
            GitAuthVerdict::Refuse
        },
        TokenLookup::NotFound => GitAuthVerdict::Refuse,
        TokenLookup::Failed => GitAuthVerdict::Challenge,
    }
}

/// The `WWW-Authenticate` header of a refused git request.
pub fn challenge_header(verdict: &GitAuthVerdict) -> (r: String)
    ensures
        *verdict == GitAuthVerdict::Refuse ==> r@ == "Basic realm=\"failed to login\""@,
        *verdict != GitAuthVerdict::Refuse ==> r@ == "Basic realm=\"git\""@,
{
    match verdict {
        GitAuthVerdict::Refuse => "Basic realm=\"failed to login\"".to_owned(),
        _ => "Basic realm=\"git\"".to_owned(),
    }
}

/// Once authentication is on, a git request goes through only where some
/// API token hash of the owner named in its header accepts the password
/// sent with it.
pub proof fn git_request_allowed_only_with_a_token(
    lookup: TokenLookup,
)
    ensures
        forall|password: Seq<char>|
            spec_git_auth_finish(lookup, password) == GitAuthVerdict::Allow ==> (lookup matches TokenLookup::Found(
                hashes,
            ) && some_hash_accepts(hashes@, encode_utf8(password))),
{
}

/// A password that one of the owner's stored hashes was made from (such
/// as the token handed out when a project was created) lets git requests
/// through.
pub proof fn issued_token_is_accepted(hashes: Vec<String>, i: int, token: Seq<char>)
    requires
        0 <= i < hashes@.len(),
        argon2_verifies(hashes@[i]@, encode_utf8(token)),
    ensures
        spec_git_auth_finish(TokenLookup::Found(hashes), token) == GitAuthVerdict::Allow,
{
    assert(argon2_verifies(hashes@[i]@, encode_utf8(token)));
}

/// The header a git client sends for `owner` and `token`: `Basic`, a
/// space, and `encoded`, whose base64 decoding is the UTF-8 of
/// `owner:token`. Where neither name holds a `:` and `encoded` is a
/// single word, the request is looked up with exactly that owner and
/// token; so a project's owner name and the token handed out at its
/// creation, sent by a client, reach the check of the token's hash.
pub proof fn basic_header_gives_back_owner_and_token(
    owner: Seq<char>,
    token: Seq<char>,
    encoded: Seq<char>,
)
    requires
        !owner.contains(':'),
        !token.contains(':'),
        encoded.len() > 0,
        forall|i: int| 0 <= i < encoded.len() ==> !is_whitespace(#[trigger] encoded[i]),
        base64_decoded(encode_utf8(encoded)) == Some(encode_utf8(owner + ":"@ + token)),
    ensures
        first_word("Basic "@ + encoded) == "Basic"@,
        spec_credentials("Basic "@ + encoded) == Some((owner, token)),
{
    reveal_strlit("Basic ");
    reveal_strlit("Basic");
    reveal_strlit(":");
    let h = "Basic "@ + encoded;
    assert(h[0] == 'B' && h[1] == 'a' && h[2] == 's' && h[3] == 'i' && h[4] == 'c' && h[5] == ' ');
    assert(!is_whitespace('B') && !is_whitespace('a') && !is_whitespace('s') && !is_whitespace('i')
        && !is_whitespace('c'));
    lemma_skip_space_bounds(h, 0);
    assert(skip_space(h, 0) == 0);
    lemma_word_end_bounds(h, 0);
    assert(word_end(h, 0) == 5) by {
        if word_end(h, 0) < 5 {
            assert(is_whitespace(h[word_end(h, 0)]));
        }
        if word_end(h, 0) > 5 {
            assert(!is_whitespace(h[5]));
        }
    }
    assert(h.subrange(0, 5) =~= "Basic"@);
    lemma_skip_space_bounds(h, 5);
    assert(skip_space(h, 5) == 6) by {
        assert(is_whitespace(h[5]));
        assert(h[6] == encoded[0]);
        if skip_space(h, 5) > 6 {
            assert(is_whitespace(h[6]));
        }
    }
    lemma_word_end_bounds(h, 6);
    assert(word_end(h, 6) == h.len()) by {
        if word_end(h, 6) < h.len() {
            assert(h[word_end(h, 6)] == encoded[word_end(h, 6) - 6]);
        }
    }
    assert(h.subrange(6, h.len() as int) =~= encoded);
    assert(second_word(h) == encoded);
    let d = owner + ":"@ + token;
    vstd::utf8::encode_utf8_valid_utf8(d);
    vstd::utf8::encode_utf8_decode_utf8(d);
    assert(valid_utf8(encode_utf8(d)));
    assert(decode_utf8(encode_utf8(d)) == d);
    let k = owner.len() as int;
    assert(d[k] == ':');
    lemma_find_char_bounds(d, ':', 0);
    assert(find_char(d, ':', 0) == k) by {
        let f = find_char(d, ':', 0);
        if f < k {
            assert(d[f] == owner[f]);
            assert(owner.contains(owner[f]));
        }
        if f > k {
            assert(d[k] != ':');
        }
    }
    assert(d.take(k) =~= owner);
    lemma_find_char_bounds(d, ':', k + 1);
    assert(find_char(d, ':', k + 1) == d.len()) by {
        let f = find_char(d, ':', k + 1);
        if f < d.len() {
            assert(d[f] == token[f - k - 1]);
            assert(token.contains(token[f - k - 1]));
        }
    }
    assert(d.subrange(k + 1, d.len() as int) =~= token);
}

} // verus!
