use vstd::prelude::*;

verus! {

pub const BACKSLASH: u8 = 92;

pub const LOWER_T: u8 = 116;

pub const LOWER_N: u8 = 110;

pub const TAB: u8 = 9;

pub const NEWLINE: u8 = 10;

/// A rendered line with the two-byte escapes turned into control bytes:
/// backslash-t becomes a tab and backslash-n a newline, scanning left to
/// right; every other byte is kept. The replacement bytes never form new
/// escapes, so one pass settles the result.
pub open spec fn unescaped_model(s: Seq<u8>) -> Seq<u8>
    decreases s.len(),
{
    if s.len() == 0 {
        Seq::empty()
    } else if s.len() >= 2 && s[0] == BACKSLASH && s[1] == LOWER_T {
        seq![TAB] + unescaped_model(s.skip(2))
    } else if s.len() >= 2 && s[0] == BACKSLASH && s[1] == LOWER_N {
        seq![NEWLINE] + unescaped_model(s.skip(2))
    } else {
        seq![s[0]] + unescaped_model(s.skip(1))
    }
}

/// Turn the literal backslash-t and backslash-n sequences of a rendered
/// line into real tabs and newlines, as the templates expect.
pub fn unescape_rendered(s: &Vec<u8>) -> (r: Vec<u8>)
    ensures
        r@ == unescaped_model(s@),
{
    let mut out: Vec<u8> = Vec::new();
    let mut i: usize = 0;
    proof {
        assert(s@.skip(0) =~= s@);
    }
    while i < s.len()
        invariant
            i <= s@.len(),
            unescaped_model(s@) == out@ + unescaped_model(s@.skip(i as int)),
        decreases s@.len() - i,
    {
        let ghost tail = s@.skip(i as int);
        let ghost out0 = out@;
        let b = s[i];
        proof {
            assert(tail[0] == s@[i as int]);
        }
        if i + 1 < s.len() && b == BACKSLASH && (s[i + 1] == LOWER_T || s[i + 1] == LOWER_N) {
            proof {
                assert(tail[1] == s@[i as int + 1]);
                assert(tail.skip(2) =~= s@.skip(i as int + 2));
            }
            if s[i + 1] == LOWER_T {
                out.push(TAB);
                proof {
                    assert(unescaped_model(tail) == seq![TAB] + unescaped_model(
                        s@.skip(i as int + 2),
                    ));
                }
            } else {
                out.push(NEWLINE);
                proof {
                    assert(unescaped_model(tail) == seq![NEWLINE] + unescaped_model(
                        s@.skip(i as int + 2),
                    ));
                }
            }
            i = i + 2;
            proof {
                assert(out@ + unescaped_model(s@.skip(i as int)) =~= out0 + unescaped_model(tail));
            }
        } else {
            proof {
                if i + 1 < s@.len() {
                    assert(tail[1] == s@[i as int + 1]);
                }
                assert(tail.skip(1) =~= s@.skip(i as int + 1));
                assert(unescaped_model(tail) == seq![tail[0]] + unescaped_model(
                    s@.skip(i as int + 1),
                ));
            }
            out.push(b);
            i = i + 1;
            proof {
                assert(out@ + unescaped_model(s@.skip(i as int)) =~= out0 + unescaped_model(tail));
            }
        }
    }
    proof {
        assert(s@.skip(s@.len() as int) =~= Seq::<u8>::empty());
    }
    out
}

} // verus!
