//! The shell commands that write a file onto a slot's Android filesystem.
//!
//! The content travels base64-encoded through `sh --cmd`. Windows caps a
//! process command line near 32 KB, so when the single
//! `echo … | base64 -d > path` command would not fit the budget, the base64
//! text is streamed to a temporary file in chunks (`echo … >` then
//! `echo … >>`) and decoded once at the end.
use base64::Engine;
use vstd::prelude::*;

use crate::cli::{owned, MumuCli};
use crate::text::{byte_len, push_str};

verus! {

/// The character of the standard base64 alphabet for the six-bit value
/// `v` (`A`–`Z`, `a`–`z`, `0`–`9`, `+`, `/`).
pub open spec fn b64_char(v: int) -> char {
    if v < 26 {
        (65 + v) as char
    } else if v < 52 {
        (97 + (v - 26)) as char
    } else if v < 62 {
        (48 + (v - 52)) as char
    } else if v == 62 {
        '+'
    } else {
        '/'
    }
}

/// The standard base64 encoding of RFC 4648 with `=` padding: each group of
/// three bytes becomes four characters of six bits each, and a last group
/// of one or two bytes is padded with `=` to four characters.
pub open spec fn base64_standard(b: Seq<u8>) -> Seq<char>
    decreases b.len(),
{
    if b.len() == 0 {
        Seq::empty()
    } else if b.len() == 1 {
        seq![b64_char((b[0] as int) / 4), b64_char(((b[0] as int) % 4) * 16), '=', '=']
    } else if b.len() == 2 {
        seq![
            b64_char((b[0] as int) / 4),
            b64_char(((b[0] as int) % 4) * 16 + (b[1] as int) / 16),
            b64_char(((b[1] as int) % 16) * 4),
            '=',
        ]
    } else {
        seq![
            b64_char((b[0] as int) / 4),
            b64_char(((b[0] as int) % 4) * 16 + (b[1] as int) / 16),
            b64_char(((b[1] as int) % 16) * 4 + (b[2] as int) / 64),
            b64_char((b[2] as int) % 64),
        ] + base64_standard(b.skip(3))
    }
}

/// A character of the standard base64 alphabet, or the `=` padding.
pub open spec fn is_base64_char(c: char) -> bool {
    ||| 'A' <= c <= 'Z'
    ||| 'a' <= c <= 'z'
    ||| '0' <= c <= '9'
    ||| c == '+'
    ||| c == '/'
    ||| c == '='
}

/// Every character is from the base64 alphabet: none is special to the
/// shell, and none is a space.
pub open spec fn all_base64(s: Seq<char>) -> bool {
    forall|i: int| 0 <= i < s.len() ==> is_base64_char(#[trigger] s[i])
}

proof fn lemma_b64_char(v: int)
    requires
        0 <= v < 64,
    ensures
        is_base64_char(b64_char(v)),
{
}

/// The encoding has the padded length `4 * ceil(n / 3)` and only
/// characters of the base64 alphabet.
pub proof fn lemma_base64_standard(b: Seq<u8>)
    ensures
        base64_standard(b).len() == 4 * ((b.len() + 2) / 3),
        all_base64(base64_standard(b)),
    decreases b.len(),
{
    let e = base64_standard(b);
    if b.len() == 0 {
    } else if b.len() < 3 {
        lemma_b64_char((b[0] as int) / 4);
        lemma_b64_char(((b[0] as int) % 4) * 16);
        if b.len() == 2 {
            lemma_b64_char(((b[0] as int) % 4) * 16 + (b[1] as int) / 16);
            lemma_b64_char(((b[1] as int) % 16) * 4);
        }
        assert forall|i: int| 0 <= i < e.len() implies is_base64_char(#[trigger] e[i]) by {
        }
    } else {
        lemma_base64_standard(b.skip(3));
        lemma_b64_char((b[0] as int) / 4);
        lemma_b64_char(((b[0] as int) % 4) * 16 + (b[1] as int) / 16);
        lemma_b64_char(((b[1] as int) % 16) * 4 + (b[2] as int) / 64);
        lemma_b64_char((b[2] as int) % 64);
        let head = seq![
            b64_char((b[0] as int) / 4),
            b64_char(((b[0] as int) % 4) * 16 + (b[1] as int) / 16),
            b64_char(((b[1] as int) % 16) * 4 + (b[2] as int) / 64),
            b64_char((b[2] as int) % 64),
        ];
        let tail = base64_standard(b.skip(3));
        assert(e == head + tail);
        assert forall|i: int| 0 <= i < e.len() implies is_base64_char(#[trigger] e[i]) by {
            if i >= 4 {
                assert(e[i] == tail[i - 4]);
            }
        }
    }
}

/// `BASE64_STANDARD.encode` of the `base64` crate (standard alphabet, `=`
/// padding). Claims that the result is [`base64_standard`] of the input.
/// The crate panics only when the padded length `4 * ceil(n / 3)`
/// overflows `usize` (`encoded_len` in its source), which `requires` rules
/// out.
#[verifier::external_body]
fn base64_encode(content: &[u8]) -> (r: String)
    requires
        4 * ((content@.len() + 2) / 3) <= usize::MAX,
    ensures
        r@ == base64_standard(content@),
{
    base64::prelude::BASE64_STANDARD.encode(content)
}

/// The byte budget of one `sh --cmd` command line: conservative headroom
/// under the ~32 KB Windows command-line ceiling.
pub const WRITE_FILE_CMD_BUDGET: usize = 28000;

/// The single command that writes the whole file.
pub open spec fn one_shot_cmd(encoded: Seq<char>, path: Seq<char>) -> Seq<char> {
    "echo "@ + encoded + " | base64 -d > "@ + path
}

/// The temporary file the chunks are streamed to.
pub open spec fn tmp_path(path: Seq<char>) -> Seq<char> {
    path + ".omna_b64"@
}

/// The length of each chunk: what is left of the budget once `echo `, the
/// redirection and the temporary path are paid for, and at least one.
pub open spec fn chunk_len(budget: nat, tmp: Seq<char>) -> nat {
    if budget > byte_len(tmp) + 16 {
        (budget - (byte_len(tmp) + 16)) as nat
    } else {
        1
    }
}

/// `s` cut into consecutive pieces of `n` characters, the last one possibly
/// shorter (none at all when `s` is empty).
pub open spec fn chunks(s: Seq<char>, n: nat) -> Seq<Seq<char>>
    decreases s.len(),
{
    if s.len() == 0 || n == 0 {
        Seq::empty()
    } else if s.len() <= n {
        seq![s]
    } else {
        seq![s.take(n as int)] + chunks(s.skip(n as int), n)
    }
}

/// The command that writes one chunk: the first one creates the
/// temporary file, the others append to it.
pub open spec fn echo_cmd(chunk: Seq<char>, first: bool, tmp: Seq<char>) -> Seq<char> {
    "echo "@ + chunk + (if first {
        " > "@
    } else {
        " >> "@
    }) + tmp
}

/// The commands that write each chunk, in order.
pub open spec fn echo_cmds(pieces: Seq<Seq<char>>, tmp: Seq<char>) -> Seq<Seq<char>> {
    Seq::new(pieces.len(), |j: int| echo_cmd(pieces[j], j == 0, tmp))
}

/// The command that decodes the temporary file into place and removes it.
pub open spec fn decode_cmd(tmp: Seq<char>, path: Seq<char>) -> Seq<char> {
    "base64 -d "@ + tmp + " > "@ + path + " && rm -f "@ + tmp
}

/// The commands that write `encoded` (base64 text) to `path` within
/// `budget` bytes per command where that is possible.
pub open spec fn write_file_cmds_spec(path: Seq<char>, encoded: Seq<char>, budget: nat) -> Seq<
    Seq<char>,
> {
    let one = one_shot_cmd(encoded, path);
    if byte_len(one) <= budget {
        seq![one]
    } else {
        let tmp = tmp_path(path);
        echo_cmds(chunks(encoded, chunk_len(budget, tmp)), tmp).push(decode_cmd(tmp, path))
    }
}

/// The UTF-8 length of a concatenation is the sum of the lengths.
pub proof fn lemma_byte_len_concat(a: Seq<char>, b: Seq<char>)
    ensures
        byte_len(a + b) == byte_len(a) + byte_len(b),
    decreases a.len(),
{
    if a.len() > 0 {
        assert((a + b).drop_first() =~= a.drop_first() + b);
        assert((a + b)[0] == a[0]);
        lemma_byte_len_concat(a.drop_first(), b);
    } else {
        assert(a + b =~= b);
    }
}

/// An ASCII string is as many bytes long as it has characters.
pub proof fn lemma_byte_len_ascii(s: Seq<char>)
    requires
        vstd::utf8::is_ascii_chars(s),
    ensures
        byte_len(s) == s.len(),
{
    vstd::utf8::is_ascii_chars_encode_utf8(s);
}

/// Putting the chunks back together gives the whole string, each chunk is
/// a non-empty run of at most `n` characters, and the chunks of an ASCII
/// string are ASCII.
pub proof fn lemma_chunks(s: Seq<char>, n: nat)
    requires
        n > 0,
    ensures
        chunks(s, n).flatten() == s,
        forall|j: int|
            0 <= j < chunks(s, n).len() ==> 0 < (#[trigger] chunks(s, n)[j]).len() <= n,
        vstd::utf8::is_ascii_chars(s) ==> forall|j: int|
            0 <= j < chunks(s, n).len() ==> vstd::utf8::is_ascii_chars(#[trigger] chunks(s, n)[j]),
        all_base64(s) ==> forall|j: int|
            0 <= j < chunks(s, n).len() ==> all_base64(#[trigger] chunks(s, n)[j]),
    decreases s.len(),
{
    if s.len() == 0 {
        assert(chunks(s, n).flatten() =~= s);
    } else if s.len() <= n {
        let c = chunks(s, n);
        assert(c.drop_first() =~= Seq::<Seq<char>>::empty());
        assert(c.drop_first().flatten() =~= Seq::<char>::empty());
        assert(c.flatten() =~= s);
    } else {
        let rest = s.skip(n as int);
        lemma_chunks(rest, n);
        let c = chunks(s, n);
        assert(c == seq![s.take(n as int)] + chunks(rest, n));
        assert(c.drop_first() =~= chunks(rest, n));
        assert(c.flatten() == c[0] + c.drop_first().flatten());
        assert(s.take(n as int) + rest =~= s);
        assert forall|j: int| 0 <= j < c.len() implies 0 < (#[trigger] c[j]).len() <= n by {
            if j > 0 {
                assert(c[j] == chunks(rest, n)[j - 1]);
            }
        }
        if all_base64(s) {
            assert(all_base64(rest)) by {
                assert forall|i: int| 0 <= i < rest.len() implies is_base64_char(#[trigger] rest[i]) by {
                    assert(rest[i] == s[i + n]);
                }
            }
            assert forall|j: int| 0 <= j < c.len() implies all_base64(#[trigger] c[j]) by {
                if j > 0 {
                    assert(c[j] == chunks(rest, n)[j - 1]);
                } else {
                    assert forall|i: int| 0 <= i < c[0].len() implies is_base64_char(#[trigger] c[0][i]) by {
                        assert(c[0][i] == s[i]);
                    }
                }
            }
        }
        if vstd::utf8::is_ascii_chars(s) {
            assert(vstd::utf8::is_ascii_chars(rest)) by {
                assert forall|i: int| 0 <= i < rest.len() implies '\0' <= #[trigger] rest[i]
                    <= '\u{7f}' by {
                    assert(rest[i] == s[i + n]);
                }
            }
            assert forall|j: int| 0 <= j < c.len() implies vstd::utf8::is_ascii_chars(
                #[trigger] c[j],
            ) by {
                if j > 0 {
                    assert(c[j] == chunks(rest, n)[j - 1]);
                } else {
                    assert forall|i: int| 0 <= i < c[0].len() implies '\0' <= #[trigger] c[0][i]
                        <= '\u{7f}' by {
                        assert(c[0][i] == s[i]);
                    }
                }
            }
        }
    }
}

/// The byte lengths of the pieces the commands are made of.
proof fn lemma_literal_lens()
    ensures
        byte_len("echo "@) == 5,
        byte_len(" | base64 -d > "@) == 15,
        byte_len(".omna_b64"@) == 9,
        byte_len(" > "@) == 3,
        byte_len(" >> "@) == 4,
        byte_len("base64 -d "@) == 10,
        byte_len(" && rm -f "@) == 10,
{
    reveal_strlit("echo ");
    reveal_strlit(" | base64 -d > ");
    reveal_strlit(".omna_b64");
    reveal_strlit(" > ");
    reveal_strlit(" >> ");
    reveal_strlit("base64 -d ");
    reveal_strlit(" && rm -f ");
    lemma_byte_len_ascii("echo "@);
    lemma_byte_len_ascii(" | base64 -d > "@);
    lemma_byte_len_ascii(".omna_b64"@);
    lemma_byte_len_ascii(" > "@);
    lemma_byte_len_ascii(" >> "@);
    lemma_byte_len_ascii("base64 -d "@);
    lemma_byte_len_ascii(" && rm -f "@);
}

/// How long each command is, in bytes.
proof fn lemma_cmd_lens(encoded: Seq<char>, path: Seq<char>, chunk: Seq<char>, first: bool)
    requires
        vstd::utf8::is_ascii_chars(encoded),
        vstd::utf8::is_ascii_chars(chunk),
    ensures
        byte_len(one_shot_cmd(encoded, path)) == 20 + encoded.len() + byte_len(path),
        byte_len(tmp_path(path)) == byte_len(path) + 9,
        byte_len(echo_cmd(chunk, first, tmp_path(path))) == 5 + chunk.len() + (if first {
            3int
        } else {
            4int
        }) + byte_len(tmp_path(path)),
        byte_len(decode_cmd(tmp_path(path), path)) == 3 * byte_len(path) + 41,
{
    lemma_literal_lens();
    lemma_byte_len_ascii(encoded);
    lemma_byte_len_ascii(chunk);
    let e1 = "echo "@;
    let e2 = " | base64 -d > "@;
    lemma_byte_len_concat(e1, encoded);
    lemma_byte_len_concat(e1 + encoded, e2);
    lemma_byte_len_concat(e1 + encoded + e2, path);
    let tmp = tmp_path(path);
    lemma_byte_len_concat(path, ".omna_b64"@);
    let redir = if first {
        " > "@
    } else {
        " >> "@
    };
    lemma_byte_len_concat(e1, chunk);
    lemma_byte_len_concat(e1 + chunk, redir);
    lemma_byte_len_concat(e1 + chunk + redir, tmp);
    let d1 = "base64 -d "@;
    let d2 = " > "@;
    let d3 = " && rm -f "@;
    lemma_byte_len_concat(d1, tmp);
    lemma_byte_len_concat(d1 + tmp, d2);
    lemma_byte_len_concat(d1 + tmp + d2, path);
    lemma_byte_len_concat(d1 + tmp + d2 + path, d3);
    lemma_byte_len_concat(d1 + tmp + d2 + path + d3, tmp);
}

/// When the budget leaves room for the decode command, every command fits
/// in the budget.
pub proof fn lemma_cmds_fit(path: Seq<char>, encoded: Seq<char>, budget: nat)
    requires
        vstd::utf8::is_ascii_chars(encoded),
        budget >= 3 * byte_len(path) + 41,
    ensures
        forall|i: int|
            0 <= i < write_file_cmds_spec(path, encoded, budget).len() ==> byte_len(
                #[trigger] write_file_cmds_spec(path, encoded, budget)[i],
            ) <= budget,
{
    let cmds = write_file_cmds_spec(path, encoded, budget);
    let one = one_shot_cmd(encoded, path);
    if byte_len(one) > budget {
        let tmp = tmp_path(path);
        let n = chunk_len(budget, tmp);
        lemma_cmd_lens(encoded, path, encoded, true);
        lemma_chunks(encoded, n);
        let pieces = chunks(encoded, n);
        assert forall|i: int| 0 <= i < cmds.len() implies byte_len(#[trigger] cmds[i]) <= budget by {
            if i < pieces.len() {
                lemma_cmd_lens(encoded, path, pieces[i], i == 0);
                assert(cmds[i] == echo_cmd(pieces[i], i == 0, tmp));
            } else {
                assert(cmds[i] == decode_cmd(tmp, path));
            }
        }
    }
}

impl MumuCli {
    /// The `sh` command(s) that write `content` to `remote_path` on a slot:
    /// those of [`MumuCli::write_file_cmds_encoded`] on the standard base64
    /// encoding of `content`.
    pub fn write_file_cmds(remote_path: &str, content: &[u8], budget: usize) -> (r: Vec<String>)
        requires
            4 * ((content@.len() + 2) / 3) <= usize::MAX,
        ensures
            r.deep_view() == write_file_cmds_spec(
                remote_path@,
                base64_standard(content@),
                budget as nat,
            ),
            byte_len(one_shot_cmd(base64_standard(content@), remote_path@)) > budget ==> chunks(
                base64_standard(content@),
                chunk_len(budget as nat, tmp_path(remote_path@)),
            ).flatten() == base64_standard(content@),
            byte_len(one_shot_cmd(base64_standard(content@), remote_path@)) > budget ==> forall|j: int|
                0 <= j < chunks(
                    base64_standard(content@),
                    chunk_len(budget as nat, tmp_path(remote_path@)),
                ).len() ==> all_base64(
                    #[trigger] chunks(
                        base64_standard(content@),
                        chunk_len(budget as nat, tmp_path(remote_path@)),
                    )[j],
                ),
            budget >= 3 * byte_len(remote_path@) + 41 ==> forall|i: int|
                0 <= i < r.deep_view().len() ==> byte_len(#[trigger] r.deep_view()[i]) <= budget,
    {
        let encoded = base64_encode(content);
        proof {
            lemma_base64_standard(content@);
        }
        Self::write_file_cmds_encoded(remote_path, encoded.as_str(), budget)
    }

    /// The `sh` command(s) that write the base64 text `encoded` to
    /// `remote_path` on a slot, each at most `budget` bytes long where the
    /// budget allows it: the single `echo <base64> | base64 -d > <path>`
    /// when it fits, otherwise the base64 text in chunks to
    /// `<path>.omna_b64` (`>` for the first chunk, `>>` for the rest) and one
    /// final command that decodes it into place and removes the temporary
    /// file.
    pub fn write_file_cmds_encoded(remote_path: &str, encoded: &str, budget: usize) -> (r: Vec<
        String,
    >)
        requires
            all_base64(encoded@),
        ensures
            r.deep_view() == write_file_cmds_spec(remote_path@, encoded@, budget as nat),
            byte_len(one_shot_cmd(encoded@, remote_path@)) > budget ==> chunks(
                encoded@,
                chunk_len(budget as nat, tmp_path(remote_path@)),
            ).flatten() == encoded@,
            byte_len(one_shot_cmd(encoded@, remote_path@)) > budget ==> forall|j: int|
                0 <= j < chunks(encoded@, chunk_len(budget as nat, tmp_path(remote_path@))).len()
                    ==> all_base64(
                    #[trigger] chunks(encoded@, chunk_len(budget as nat, tmp_path(remote_path@)))[j],
                ),
            budget >= 3 * byte_len(remote_path@) + 41 ==> forall|i: int|
                0 <= i < r.deep_view().len() ==> byte_len(#[trigger] r.deep_view()[i]) <= budget,
    {
        let ghost e = encoded@;
        assert(vstd::utf8::is_ascii_chars(e)) by {
            assert forall|i: int| 0 <= i < e.len() implies '\0' <= #[trigger] e[i] <= '\u{7f}' by {
                assert(is_base64_char(e[i]));
            }
        }
        proof {
            lemma_byte_len_ascii(e);
            lemma_cmd_lens(e, remote_path@, e, true);
            lemma_literal_lens();
            lemma_byte_len_concat(remote_path@, ".omna_b64"@);
            if budget >= 3 * byte_len(remote_path@) + 41 {
                lemma_cmds_fit(remote_path@, e, budget as nat);
            }
        }
        let e_str = encoded;
        let e_len = encoded.as_bytes().len();
        let p_len = remote_path.as_bytes().len();
        let mut one = String::new();
        push_str(&mut one, "echo ");
        push_str(&mut one, e_str);
        push_str(&mut one, " | base64 -d > ");
        push_str(&mut one, remote_path);
        if e_len <= budget && p_len <= budget - e_len && 20 <= budget - e_len - p_len {
            let r = vec![one];
            assert(r.deep_view() =~= seq![one@]);
            return r;
        }
        let mut tmp = owned(remote_path);
        push_str(&mut tmp, ".omna_b64");
        // The room that `echo `, the redirection and the temporary path
        // take; it saturates where it would not fit in `usize`.
        let need: usize = if p_len <= usize::MAX - 25 {
            p_len + 25
        } else {
            usize::MAX
        };
        let n: usize = if budget > need {
            budget - need
        } else {
            1
        };
        let ghost all = chunks(e, n as nat);
        proof {
            lemma_chunks(e, n as nat);
            assert(e.skip(0) =~= e);
        }
        let mut cmds: Vec<String> = Vec::new();
        let mut start: usize = 0;
        while start < e_len
            invariant
                e_len == e.len(),
                e_str@ == e,
                vstd::utf8::is_ascii_chars(e),
                n > 0,
                start <= e_len,
                all == chunks(e, n as nat),
                cmds@.len() <= all.len(),
                chunks(e.skip(start as int), n as nat) == all.skip(cmds@.len() as int),
                cmds.deep_view() == echo_cmds(all.take(cmds@.len() as int), tmp@),
            decreases e_len - start,
        {
            let end: usize = if e_len - start > n {
                start + n
            } else {
                e_len
            };
            let piece = e_str.substring_ascii(start, end);
            let ghost rest = e.skip(start as int);
            let ghost k = cmds@.len() as int;
            proof {
                if rest.len() > n {
                    assert(rest.skip(n as int) =~= e.skip(end as int));
                    assert(rest.take(n as int) =~= piece@);
                } else {
                    assert(rest =~= piece@);
                    assert(e.skip(end as int) =~= Seq::<char>::empty());
                }
                assert(chunks(rest, n as nat) == seq![piece@] + chunks(e.skip(end as int), n as nat));
                assert(all.skip(k)[0] == all[k]);
                assert(all[k] == piece@);
                assert(all.skip(k + 1) =~= all.skip(k).drop_first());
            }
            let mut cmd = String::new();
            push_str(&mut cmd, "echo ");
            push_str(&mut cmd, piece);
            if cmds.len() == 0 {
                push_str(&mut cmd, " > ");
            } else {
                push_str(&mut cmd, " >> ");
            }
            push_str(&mut cmd, tmp.as_str());
            proof {
                assert(cmd@ =~= echo_cmd(all[k], k == 0, tmp@));
            }
            let ghost before = cmds.deep_view();
            cmds.push(cmd);
            proof {
                assert(cmds.deep_view() =~= before.push(cmd@));
                assert(echo_cmds(all.take(k + 1), tmp@) =~= echo_cmds(all.take(k), tmp@).push(
                    echo_cmd(all[k], k == 0, tmp@),
                ));
                assert(cmds.deep_view() =~= echo_cmds(all.take(k + 1), tmp@));
            }
            start = end;
        }
        proof {
            assert(e.skip(start as int) =~= Seq::<char>::empty());
            assert(all.take(cmds@.len() as int) =~= all);
        }
        let mut fin = String::new();
        push_str(&mut fin, "base64 -d ");
        push_str(&mut fin, tmp.as_str());
        push_str(&mut fin, " > ");
        push_str(&mut fin, remote_path);
        push_str(&mut fin, " && rm -f ");
        push_str(&mut fin, tmp.as_str());
        let ghost before = cmds.deep_view();
        cmds.push(fin);
        proof {
            assert(fin@ =~= decode_cmd(tmp_path(remote_path@), remote_path@));
            assert(cmds.deep_view() =~= before.push(fin@));
        }
        cmds
    }
}

} // verus!
