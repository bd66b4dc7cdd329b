//! Text helpers: copies, and the filling of format templates.

use vstd::prelude::*;
use vstd::string::*;
use crate::model::models;

verus! {

/// A copy of a run of texts.
pub fn copy_texts(v: &Vec<String>) -> (r: Vec<String>)
    ensures
        models(r@) == models(v@),
{
    let mut out: Vec<String> = Vec::new();
    let n: usize = v.len();
    let mut i: usize = 0;
    while i < n
        invariant
            n == v.len(),
            i <= n,
            out.len() == i,
            forall|j: int| 0 <= j < i ==> out@[j]@ == v@[j]@,
        decreases n - i,
    {
        out.push(v[i].clone());
        i = i + 1;
    }
    assert(models(out@) =~= models(v@));
    out
}

/// A template with its placeholders filled, in order, by the arguments.
///
/// `{}` takes the next argument, `{{` and `}}` stand for one brace each.
/// There is no filled text where a brace stands otherwise, where a
/// placeholder finds no argument, or where an argument finds no
/// placeholder.
pub open spec fn filled(template: Seq<char>, args: Seq<Seq<char>>) -> Option<Seq<char>>
    decreases template.len(),
{
    if template.len() == 0 {
        if args.len() == 0 {
            Some(Seq::empty())
        } else {
            None
        }
    } else if template.len() >= 2 && template[0] == '{' && template[1] == '}' {
        if args.len() == 0 {
            None
        } else {
            after(args[0], filled(template.skip(2), args.skip(1)))
        }
    } else if template.len() >= 2 && template[0] == '{' && template[1] == '{' {
        after(seq!['{'], filled(template.skip(2), args))
    } else if template.len() >= 2 && template[0] == '}' && template[1] == '}' {
        after(seq!['}'], filled(template.skip(2), args))
    } else if template[0] == '{' || template[0] == '}' {
        None
    } else {
        after(seq![template[0]], filled(template.skip(1), args))
    }
}

/// `rest` behind `head`, where there is a `rest`.
pub open spec fn after(head: Seq<char>, rest: Option<Seq<char>>) -> Option<Seq<char>> {
    match rest {
        Some(r) => Some(head + r),
        None => None,
    }
}

/// Fills the placeholders of a format template with the arguments.
pub fn fill_template(template: &str, args: &Vec<String>) -> (r: Option<String>)
    ensures
        match r {
            Some(s) => filled(template@, models(args@)) == Some(s@),
            None => filled(template@, models(args@)) is None,
        },
{
    let n: usize = template.unicode_len();
    let m: usize = args.len();
    let mut out = String::new();
    let mut i: usize = 0;
    let mut k: usize = 0;
    let ghost all = models(args@);
    assert(template@.skip(0) =~= template@);
    assert(all.skip(0) =~= all);
    while i < n
        invariant
            n == template@.len(),
            m == args.len(),
            all == models(args@),
            i <= n,
            k <= m,
            filled(template@, all) == after(out@, filled(template@.skip(i as int), all.skip(k as int))),
        decreases n - i,
    {
        let ghost rest = template@.skip(i as int);
        let ghost left = all.skip(k as int);
        let c = template.get_char(i);
        assert(rest[0] == c);
        assert(rest.len() == n - i);
        let two = i + 1 < n;
        let d = if two {
            template.get_char(i + 1)
        } else {
            c
        };
        assert(two ==> rest[1] == d);
        if two && c == '{' && d == '}' {
            if k >= m {
                return None;
            }
            proof {
                assert(rest.skip(2) =~= template@.skip(i + 2));
                assert(left.skip(1) =~= all.skip(k + 1));
                assert(left[0] == args@[k as int]@);
                let tail = filled(rest.skip(2), left.skip(1));
                if tail is Some {
                    assert(out@ + (left[0] + tail->Some_0) =~= (out@ + left[0]) + tail->Some_0);
                }
            }
            out.append(args[k].as_str());
            k = k + 1;
            i = i + 2;
        } else if two && ((c == '{' && d == '{') || (c == '}' && d == '}')) {
            proof {
                assert(rest.skip(2) =~= template@.skip(i + 2));
                let tail = filled(rest.skip(2), left);
                assert(template@.subrange(i as int, i + 1) =~= seq![c]);
                if tail is Some {
                    assert(out@ + (seq![c] + tail->Some_0) =~= (out@ + seq![c]) + tail->Some_0);
                }
            }
            out.append(template.substring_char(i, i + 1));
            i = i + 2;
        } else if c == '{' || c == '}' {
            return None;
        } else {
            proof {
                assert(rest.skip(1) =~= template@.skip(i + 1));
                let tail = filled(rest.skip(1), left);
                assert(template@.subrange(i as int, i + 1) =~= seq![c]);
                if tail is Some {
                    assert(out@ + (seq![c] + tail->Some_0) =~= (out@ + seq![c]) + tail->Some_0);
                }
            }
            out.append(template.substring_char(i, i + 1));
            i = i + 1;
        }
    }
    assert(template@.skip(n as int).len() == 0);
    if k < m {
        assert(all.skip(k as int).len() > 0);
        None
    } else {
        assert(all.skip(k as int).len() == 0);
        assert(out@ + Seq::<char>::empty() =~= out@);
        Some(out)
    }
}

} // verus!
