use vstd::prelude::*;
use vstd::string::{is_ascii_spec_bytes, StringSliceAdditionalSpecFns};

verus! {

/// Strand combination for read pairs as given by the sequencing protocol.
#[derive(Clone, Copy, Debug, PartialEq, Eq, Structural)]
pub enum ProtocolStrandedness {
    Opposite,
    Same,
}

impl Default for ProtocolStrandedness {
    fn default() -> (r: ProtocolStrandedness)
        ensures
            r == ProtocolStrandedness::Opposite,
    {
        ProtocolStrandedness::Opposite
    }
}

/// Whether the bytes are the ASCII letters of `word`.
pub open spec fn spells(bytes: Seq<u8>, word: Seq<char>) -> bool {
    bytes.len() == word.len() && forall|i: int| 0 <= i < word.len() ==> bytes[i] == word[i] as u8
}

/// An ASCII text whose bytes spell an ASCII word is that word.
proof fn lemma_ascii_spelling(s: &str, word: Seq<char>)
    requires
        s.is_ascii(),
        vstd::utf8::is_ascii_chars(word),
        spells(s.spec_bytes(), word),
    ensures
        s@ == word,
{
    broadcast use is_ascii_spec_bytes;

    assert forall|i: int| 0 <= i < word.len() implies s@[i] == word[i] by {
        let c = s@[i];
        let w = word[i];
        assert(s.spec_bytes()[i] == c as u8);
        assert('\0' <= c <= '\u{7f}');
        assert('\0' <= w <= '\u{7f}');
        assert((c as int) < 128 && (w as int) < 128);
    }
    assert(s@ =~= word);
}

impl ProtocolStrandedness {
    /// The strandedness named `s` in configuration text, if any.
    pub fn from_name(s: &str) -> (r: Option<ProtocolStrandedness>)
        ensures
            r == Some(ProtocolStrandedness::Opposite) <==> s@ == "opposite"@,
            r == Some(ProtocolStrandedness::Same) <==> s@ == "same"@,
            r is None <==> s@ != "opposite"@ && s@ != "same"@,
    {
        proof {
            reveal_strlit("opposite");
            reveal_strlit("same");
            assert(vstd::utf8::is_ascii_chars("opposite"@));
            assert(vstd::utf8::is_ascii_chars("same"@));
        }
        if !s.is_ascii() {
            return None;
        }
        let b = s.as_bytes();
        proof {
            broadcast use is_ascii_spec_bytes;

            assert(b@ == s.spec_bytes());
        }
        if b.len() == 8 && b[0] == 111 && b[1] == 112 && b[2] == 112 && b[3] == 111 && b[4]
            == 115 && b[5] == 105 && b[6] == 116 && b[7] == 101 {
            proof {
                lemma_ascii_spelling(s, "opposite"@);
            }
            Some(ProtocolStrandedness::Opposite)
        } else if b.len() == 4 && b[0] == 115 && b[1] == 97 && b[2] == 109 && b[3] == 101 {
            proof {
                lemma_ascii_spelling(s, "same"@);
            }
            Some(ProtocolStrandedness::Same)
        } else {
            None
        }
    }

    /// The name of the strandedness in configuration text.
    pub fn name(&self) -> (r: &'static str)
        ensures
            *self == ProtocolStrandedness::Opposite ==> r@ == "opposite"@,
            *self == ProtocolStrandedness::Same ==> r@ == "same"@,
    {
        match self {
            ProtocolStrandedness::Opposite => "opposite",
            ProtocolStrandedness::Same => "same",
        }
    }
}

} // verus!
