use vstd::prelude::*;

verus! {

/// The character standing for the hex value `d`.
pub open spec fn hex_digit(d: u8) -> char {
    if d == 0 {
        '0'
    } else if d == 1 {
        '1'
    } else if d == 2 {
        '2'
    } else if d == 3 {
        '3'
    } else if d == 4 {
        '4'
    } else if d == 5 {
        '5'
    } else if d == 6 {
        '6'
    } else if d == 7 {
        '7'
    } else if d == 8 {
        '8'
    } else if d == 9 {
        '9'
    } else if d == 10 {
        'a'
    } else if d == 11 {
        'b'
    } else if d == 12 {
        'c'
    } else if d == 13 {
        'd'
    } else if d == 14 {
        'e'
    } else {
        'f'
    }
}

/// What one character of a message becomes inside a JSON string literal:
/// quote and backslash take a backslash escape, the common control
/// characters take their short escapes, any other control character takes
/// the six-character `\u00XX` form, and everything else stands for itself.
pub open spec fn escape_char(c: char) -> Seq<char> {
    if c == '"' {
        seq!['\\', '"']
    } else if c == '\\' {
        seq!['\\', '\\']
    } else if c == '\n' {
        seq!['\\', 'n']
    } else if c == '\r' {
        seq!['\\', 'r']
    } else if c == '\t' {
        seq!['\\', 't']
    } else if (c as u32) < 0x20 {
        seq![
            '\\',
            'u',
            '0',
            '0',
            hex_digit(((c as u32) / 16) as u8),
            hex_digit(((c as u32) % 16) as u8),
        ]
    } else {
        seq![c]
    }
}

/// The whole message escaped, character by character.
pub open spec fn escape_seq(s: Seq<char>) -> Seq<char>
    decreases s.len(),
{
    if s.len() == 0 {
        Seq::empty()
    } else {
        escape_seq(s.drop_last()) + escape_char(s.last())
    }
}

/// Soundness of the escaping, first half: no control character survives
/// it.  Every character of the escaped text is at or above the space
/// character, so the text can stand inside a JSON string literal without
/// smuggling in a raw line break or other control byte.
pub proof fn lemma_escaped_text_has_no_controls(s: Seq<char>)
    ensures
        forall|i: int| 0 <= i < escape_seq(s).len() ==> (#[trigger] escape_seq(s)[i]) as u32
            >= 0x20,
    decreases s.len(),
{
    if s.len() != 0 {
        lemma_escaped_text_has_no_controls(s.drop_last());
        let prefix = escape_seq(s.drop_last());
        let tail = escape_char(s.last());
        assert forall|i: int|
            0 <= i < escape_seq(s).len() implies (#[trigger] escape_seq(s)[i]) as u32 >= 0x20 by {
            if i < prefix.len() {
                assert(escape_seq(s)[i] == prefix[i]);
            } else {
                assert(escape_seq(s)[i] == tail[i - prefix.len()]);
            }
        }
    }
}

/// Soundness of the escaping, second half: every quote in the escaped
/// text is preceded by a backslash, so the text can never close the JSON
/// string literal it stands in early.
pub proof fn lemma_quotes_are_escaped(s: Seq<char>)
    ensures
        forall|i: int|
            0 <= i < escape_seq(s).len() && (#[trigger] escape_seq(s)[i]) == '"' ==> i >= 1
                && escape_seq(s)[i - 1] == '\\',
    decreases s.len(),
{
    if s.len() != 0 {
        lemma_quotes_are_escaped(s.drop_last());
        let prefix = escape_seq(s.drop_last());
        let tail = escape_char(s.last());
        assert forall|i: int|
            0 <= i < escape_seq(s).len() && (#[trigger] escape_seq(s)[i])
                == '"' implies i >= 1 && escape_seq(s)[i - 1] == '\\' by {
            if i < prefix.len() {
                assert(escape_seq(s)[i] == prefix[i]);
                assert(escape_seq(s)[i - 1] == prefix[i - 1]);
            } else {
                assert(escape_seq(s)[i] == tail[i - prefix.len()]);
                assert(i == prefix.len() + 1);
                assert(escape_seq(s)[i - 1] == tail[0]);
            }
        }
    }
}

fn append_hex_digit(out: &mut String, d: u8)
    requires
        d < 16,
    ensures
        final(out)@ == old(out)@ + seq![hex_digit(d)],
{
    if d == 0 {
        proof {
            reveal_strlit("0");
        }
        out.append("0");
    } else if d == 1 {
        proof {
            reveal_strlit("1");
        }
        out.append("1");
    } else if d == 2 {
        proof {
            reveal_strlit("2");
        }
        out.append("2");
    } else if d == 3 {
        proof {
            reveal_strlit("3");
        }
        out.append("3");
    } else if d == 4 {
        proof {
            reveal_strlit("4");
        }
        out.append("4");
    } else if d == 5 {
        proof {
            reveal_strlit("5");
        }
        out.append("5");
    } else if d == 6 {
        proof {
            reveal_strlit("6");
        }
        out.append("6");
    } else if d == 7 {
        proof {
            reveal_strlit("7");
        }
        out.append("7");
    } else if d == 8 {
        proof {
            reveal_strlit("8");
        }
        out.append("8");
    } else if d == 9 {
        proof {
            reveal_strlit("9");
        }
        out.append("9");
    } else if d == 10 {
        proof {
            reveal_strlit("a");
        }
        out.append("a");
    } else if d == 11 {
        proof {
            reveal_strlit("b");
        }
        out.append("b");
    } else if d == 12 {
        proof {
            reveal_strlit("c");
        }
        out.append("c");
    } else if d == 13 {
        proof {
            reveal_strlit("d");
        }
        out.append("d");
    } else if d == 14 {
        proof {
            reveal_strlit("e");
        }
        out.append("e");
    } else {
        proof {
            reveal_strlit("f");
        }
        out.append("f");
    }
    proof {
        assert(final(out)@ =~= old(out)@ + seq![hex_digit(d)]);
    }
}

/// Escapes `s` so that it can stand between the quotes of a JSON string.
pub fn escape_json(s: &str) -> (r: String)
    ensures
        r@ == escape_seq(s@),
{
    let n = s.unicode_len();
    let mut out = String::new();
    let mut i: usize = 0;
    proof {
        assert(out@ =~= escape_seq(s@.take(0)));
    }
    while i < n
        invariant
            i <= n,
            n == s@.len(),
            out@ == escape_seq(s@.take(i as int)),
        decreases n - i,
    {
        let ghost prefix = s@.take(i as int);
        let c = s.get_char(i);
        if c == '"' {
            proof {
                reveal_strlit("\\\"");
            }
            out.append("\\\"");
        } else if c == '\\' {
            proof {
                reveal_strlit("\\\\");
            }
            out.append("\\\\");
        } else if c == '\n' {
            proof {
                reveal_strlit("\\n");
            }
            out.append("\\n");
        } else if c == '\r' {
            proof {
                reveal_strlit("\\r");
            }
            out.append("\\r");
        } else if c == '\t' {
            proof {
                reveal_strlit("\\t");
            }
            out.append("\\t");
        } else if (c as u32) < 0x20 {
            proof {
                reveal_strlit("\\u00");
            }
            out.append("\\u00");
            let code: u32 = c as u32;
            append_hex_digit(&mut out, (code / 16) as u8);
            append_hex_digit(&mut out, (code % 16) as u8);
        } else {
            let piece = s.substring_char(i, i + 1);
            proof {
                assert(piece@ =~= seq![c]);
            }
            out.append(piece);
        }
        proof {
            assert(s@.take(i as int + 1).drop_last() =~= prefix);
            assert(s@.take(i as int + 1).last() == c);
            assert(out@ =~= escape_seq(prefix) + escape_char(c));
        }
        i = i + 1;
    }
    proof {
        assert(s@.take(n as int) =~= s@);
    }
    out
}

} // verus!
