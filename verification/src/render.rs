//! Human-readable rendering of container contents, used for diagnostics
//! and tests: a bracketed, comma-separated list of the live elements,
//! with no leading or trailing comma, and a `Queue ` prefix for queues.
//! Rendering is read-only with respect to container state.

use vstd::prelude::*;

verus! {

/// The decimal digit `d` as a character, for `d < 10`.
pub open spec fn digit_char(d: nat) -> char
    recommends
        d < 10,
{
    if d == 0 {
        '0'
    } else if d == 1 {
        '1'
    } else if d == 2 {
        '2'
    } else if d == 3 {
        '3'
    } else if d == 4 {
        '4'
    } else if d == 5 {
        '5'
    } else if d == 6 {
        '6'
    } else if d == 7 {
        '7'
    } else if d == 8 {
        '8'
    } else {
        '9'
    }
}

/// The decimal representation of `n`, most significant digit first,
/// with no leading zeros (`0` renders as the single digit `0`).
pub open spec fn decimal(n: nat) -> Seq<char>
    decreases n,
{
    if n < 10 {
        seq![digit_char(n)]
    } else {
        decimal(n / 10).push(digit_char(n % 10))
    }
}

/// An element type that the containers can render, standing in for the
/// usual formatting machinery: `rendered` is the characters a value
/// displays as, and `render_into` appends exactly those characters.
pub trait Render {
    /// The characters this value renders as.
    spec fn rendered(&self) -> Seq<char>;

    /// Appends the rendering of `self` to `out`.
    fn render_into(&self, out: &mut String)
        ensures
            final(out)@ == old(out)@ + self.rendered(),
    ;
}

/// The single-character string for digit `d`.
fn digit_str(d: u64) -> (r: &'static str)
    requires
        d < 10,
    ensures
        r@ == seq![digit_char(d as nat)],
{
    if d == 0 {
        proof {
            reveal_strlit("0");
            assert("0"@ =~= seq![digit_char(d as nat)]);
        }
        "0"
    } else if d == 1 {
        proof {
            reveal_strlit("1");
            assert("1"@ =~= seq![digit_char(d as nat)]);
        }
        "1"
    } else if d == 2 {
        proof {
            reveal_strlit("2");
            assert("2"@ =~= seq![digit_char(d as nat)]);
        }
        "2"
    } else if d == 3 {
        proof {
            reveal_strlit("3");
            assert("3"@ =~= seq![digit_char(d as nat)]);
        }
        "3"
    } else if d == 4 {
        proof {
            reveal_strlit("4");
            assert("4"@ =~= seq![digit_char(d as nat)]);
        }
        "4"
    } else if d == 5 {
        proof {
            reveal_strlit("5");
            assert("5"@ =~= seq![digit_char(d as nat)]);
        }
        "5"
    } else if d == 6 {
        proof {
            reveal_strlit("6");
            assert("6"@ =~= seq![digit_char(d as nat)]);
        }
        "6"
    } else if d == 7 {
        proof {
            reveal_strlit("7");
            assert("7"@ =~= seq![digit_char(d as nat)]);
        }
        "7"
    } else if d == 8 {
        proof {
            reveal_strlit("8");
            assert("8"@ =~= seq![digit_char(d as nat)]);
        }
        "8"
    } else {
        proof {
            reveal_strlit("9");
            assert("9"@ =~= seq![digit_char(d as nat)]);
        }
        "9"
    }
}

/// Appends the decimal representation of `n` to `out`.
fn append_decimal(out: &mut String, n: u64)
    ensures
        final(out)@ == old(out)@ + decimal(n as nat),
    decreases n,
{
    if n < 10 {
        out.append(digit_str(n));
        proof {
            assert(out@ =~= old(out)@ + decimal(n as nat));
        }
    } else {
        append_decimal(out, n / 10);
        out.append(digit_str(n % 10));
        proof {
            assert(out@ =~= old(out)@ + decimal(n as nat));
        }
    }
}

impl Render for u64 {
    open spec fn rendered(&self) -> Seq<char> {
        decimal(*self as nat)
    }

    fn render_into(&self, out: &mut String) {
        append_decimal(out, *self);
    }
}

/// The comma-separated renderings of the elements of `s`, in order,
/// with no leading or trailing comma.
pub open spec fn rendered_items<T: Render>(s: Seq<T>) -> Seq<char>
    decreases s.len(),
{
    if s.len() == 0 {
        Seq::empty()
    } else if s.len() == 1 {
        s[0].rendered()
    } else {
        s[0].rendered() + seq![','] + rendered_items(s.drop_first())
    }
}

/// The bracketed list form `[e0,e1,...]` of the elements of `s`.
pub open spec fn rendered_list<T: Render>(s: Seq<T>) -> Seq<char> {
    seq!['['] + rendered_items(s) + seq![']']
}

/// The queue form: the bracketed list with a literal `Queue ` prefix.
pub open spec fn rendered_queue<T: Render>(s: Seq<T>) -> Seq<char> {
    seq!['Q', 'u', 'e', 'u', 'e', ' '] + rendered_list(s)
}

/// Appending one element to a list extends its rendering by a comma
/// (except before the first element) and the element's rendering.
pub proof fn lemma_rendered_items_push<T: Render>(s: Seq<T>, x: T)
    ensures
        rendered_items(s.push(x)) == if s.len() == 0 {
            x.rendered()
        } else {
            rendered_items(s) + seq![','] + x.rendered()
        },
    decreases s.len(),
{
    if s.len() == 0 {
        assert(s.push(x)[0] == x);
    } else {
        lemma_rendered_items_push(s.drop_first(), x);
        assert(s.push(x).drop_first() =~= s.drop_first().push(x));
        assert(s.push(x)[0] == s[0]);
        assert(rendered_items(s.push(x)) =~= rendered_items(s) + seq![','] + x.rendered());
    }
}

} // verus!
