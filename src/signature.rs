use vstd::prelude::*;

use crate::error::{AwsError, Type};

verus! {

/// The text of a type tag, for the types that a signature may hold.
pub open spec fn tag_text(t: Type) -> Option<Seq<char>> {
    match t {
        Type::I32 => Some(seq!['i', '3', '2']),
        Type::F32 => Some(seq!['f', '3', '2']),
        _ => None,
    }
}

/// The type that a tag names, if it names a supported one.
pub open spec fn tag_of(s: Seq<char>) -> Option<Type> {
    if s == seq!['i', '3', '2'] {
        Some(Type::I32)
    } else if s == seq!['f', '3', '2'] {
        Some(Type::F32)
    } else {
        None
    }
}

pub open spec fn supported(t: Type) -> bool {
    tag_text(t) is Some
}

pub open spec fn all_supported(ts: Seq<Type>) -> bool {
    forall|i: int| 0 <= i < ts.len() ==> supported(#[trigger] ts[i])
}

/// Tags joined by commas.
pub open spec fn list_text(ts: Seq<Type>) -> Seq<char>
    decreases ts.len(),
{
    if ts.len() == 0 {
        Seq::empty()
    } else if ts.len() == 1 {
        tag_text(ts[0]).unwrap()
    } else {
        list_text(ts.drop_last()) + seq![','] + tag_text(ts.last()).unwrap()
    }
}

/// The signature text `"<params>-><results>"`.
pub open spec fn signature_text(params: Seq<Type>, results: Seq<Type>) -> Seq<char> {
    list_text(params) + seq!['-', '>'] + list_text(results)
}

/// The pieces between commas, empty ones included (a text without commas is one piece).
pub open spec fn pieces(s: Seq<char>) -> Seq<Seq<char>>
    decreases s.len(),
{
    if s.len() == 0 {
        seq![Seq::empty()]
    } else {
        let p = pieces(s.drop_last());
        if s.last() == ',' {
            p.push(Seq::empty())
        } else {
            p.update(p.len() - 1, p.last().push(s.last()))
        }
    }
}

/// The types that the non-empty pieces name; `None` if one of them names none.
pub open spec fn parse_pieces(ps: Seq<Seq<char>>) -> Option<Seq<Type>>
    decreases ps.len(),
{
    if ps.len() == 0 {
        Some(Seq::empty())
    } else {
        match parse_pieces(ps.drop_last()) {
            None => None,
            Some(ts) => if ps.last().len() == 0 {
                Some(ts)
            } else {
                match tag_of(ps.last()) {
                    Some(t) => Some(ts.push(t)),
                    None => None,
                }
            },
        }
    }
}

pub open spec fn parse_list(s: Seq<char>) -> Option<Seq<Type>> {
    parse_pieces(pieces(s))
}

pub open spec fn arrow_at(s: Seq<char>, i: int) -> bool {
    0 <= i && i + 1 < s.len() && s[i] == '-' && s[i + 1] == '>'
}

/// The first position at or after `i` where `"->"` starts.
pub open spec fn find_arrow(s: Seq<char>, i: int) -> Option<int>
    decreases s.len() - i,
{
    if i < 0 || i + 1 >= s.len() {
        None
    } else if arrow_at(s, i) {
        Some(i)
    } else {
        find_arrow(s, i + 1)
    }
}

/// What a signature text stands for: the parameter and return types on either side of
/// its first `"->"`.
pub open spec fn parse_signature_spec(s: Seq<char>) -> Option<(Seq<Type>, Seq<Type>)> {
    match find_arrow(s, 0) {
        None => None,
        Some(i) => match (parse_list(s.subrange(0, i)), parse_list(s.subrange(i + 2, s.len() as int))) {
            (Some(p), Some(r)) => Some((p, r)),
            _ => None,
        },
    }
}

/// A signature text made of supported tags only.
pub open spec fn well_formed_signature(s: Seq<char>) -> bool {
    exists|ps: Seq<Type>, rs: Seq<Type>|
        all_supported(ps) && all_supported(rs) && s == #[trigger] signature_text(ps, rs)
}

impl Type {
    /// The type a tag names.
    pub fn from_tag(s: &str) -> (r: Result<Type, AwsError>)
        ensures
            match r {
                Ok(t) => tag_of(s@) == Some(t),
                Err(e) => tag_of(s@) is None && e is UnimplementedWasmType,
            },
    {
        let cs = chars_of(s);
        match tag_from_chars(&cs) {
            Some(t) => Ok(t),
            None => Err(AwsError::UnimplementedWasmType),
        }
    }

    /// The tag of a supported type.
    pub fn tag(&self) -> (r: Result<&'static str, AwsError>)
        ensures
            match r {
                Ok(s) => tag_text(*self) == Some(s@),
                Err(e) => !supported(*self) && e is UnimplementedWasmType,
            },
    {
        proof {
            reveal_strlit("i32");
            reveal_strlit("f32");
        }
        match self {
            Type::I32 => Ok("i32"),
            Type::F32 => Ok("f32"),
            _ => Err(AwsError::UnimplementedWasmType),
        }
    }
}

/// The characters of a string.
pub fn chars_of(s: &str) -> (r: Vec<char>)
    ensures
        r@ == s@,
{
    let n = s.unicode_len();
    let mut r: Vec<char> = Vec::new();
    let mut i: usize = 0;
    while i < n
        invariant
            n == s@.len(),
            i <= n,
            r@ == s@.subrange(0, i as int),
        decreases n - i,
    {
        r.push(s.get_char(i));
        i += 1;
    }
    assert(r@ =~= s@);
    r
}

fn tag_from_chars(cs: &Vec<char>) -> (r: Option<Type>)
    ensures
        r == tag_of(cs@),
{
    if cs.len() == 3 && cs[1] == '3' && cs[2] == '2' {
        if cs[0] == 'i' {
            assert(cs@ =~= seq!['i', '3', '2']);
            return Some(Type::I32);
        } else if cs[0] == 'f' {
            assert(cs@ =~= seq!['f', '3', '2']);
            return Some(Type::F32);
        }
    }
    assert(cs@ != seq!['i', '3', '2'] && cs@ != seq!['f', '3', '2']) by {
        if cs@.len() == 3 {
            assert(seq!['i', '3', '2'][0] == 'i');
        }
    }
    None
}

/// The comma-separated type list held in `cs[lo..hi]`.
fn parse_type_list(cs: &Vec<char>, lo: usize, hi: usize) -> (r: Option<Vec<Type>>)
    requires
        lo <= hi <= cs@.len(),
    ensures
        match r {
            Some(v) => parse_list(cs@.subrange(lo as int, hi as int)) == Some(v@),
            None => parse_list(cs@.subrange(lo as int, hi as int)) is None,
        },
{
    let mut out: Vec<Type> = Vec::new();
    let mut cur: Vec<char> = Vec::new();
    let mut ok = true;
    let ghost mut done: Seq<Seq<char>> = Seq::empty();
    let mut i = lo;
    assert(cs@.subrange(lo as int, lo as int) =~= Seq::<char>::empty());
    assert(done.push(cur@) =~= seq![Seq::<char>::empty()]);
    while i < hi
        invariant
            lo <= i <= hi <= cs@.len(),
            pieces(cs@.subrange(lo as int, i as int)) == done.push(cur@),
            ok ==> parse_pieces(done) == Some(out@),
            !ok ==> parse_pieces(done) is None,
        decreases hi - i,
    {
        let c = cs[i];
        let ghost s = cs@.subrange(lo as int, i + 1);
        assert(s.drop_last() =~= cs@.subrange(lo as int, i as int));
        assert(s.last() == c);
        if c == ',' {
            let ghost prev = done;
            proof {
                done = done.push(cur@);
                assert(done.drop_last() =~= prev);
            }
            if ok && cur.len() > 0 {
                match tag_from_chars(&cur) {
                    Some(t) => out.push(t),
                    None => ok = false,
                }
            }
            cur = Vec::new();
            assert(pieces(s) =~= done.push(cur@));
        } else {
            let ghost before = cur@;
            cur.push(c);
            assert(done.push(before).update(done.len() as int, before.push(c)) =~= done.push(cur@));
        }
        i += 1;
    }
    let ghost all = done.push(cur@);
    assert(all.drop_last() =~= done);
    if ok && cur.len() > 0 {
        match tag_from_chars(&cur) {
            Some(t) => out.push(t),
            None => ok = false,
        }
    }
    if ok {
        Some(out)
    } else {
        None
    }
}

/// Splits a signature text into its parameter and return types.
pub fn parse_signature(sig: &str) -> (r: Result<(Vec<Type>, Vec<Type>), AwsError>)
    ensures
        match r {
            Ok((p, q)) => parse_signature_spec(sig@) == Some((p@, q@)),
            Err(e) => parse_signature_spec(sig@) is None && (e matches AwsError::InvalidSignature(t)
                && t@ == sig@),
        },
{
    let cs = chars_of(sig);
    let n = cs.len();
    let mut i: usize = 0;
    while i < n
        invariant
            i <= n,
            n == cs@.len(),
            cs@ == sig@,
            find_arrow(cs@, 0) == find_arrow(cs@, i as int),
        decreases n - i,
    {
        if i + 1 < n && cs[i] == '-' && cs[i + 1] == '>' {
            let p = parse_type_list(&cs, 0, i);
            let q = parse_type_list(&cs, i + 2, n);
            match (p, q) {
                (Some(p), Some(q)) => return Ok((p, q)),
                _ => return Err(AwsError::InvalidSignature(sig.to_owned())),
            }
        }
        i += 1;
    }
    Err(AwsError::InvalidSignature(sig.to_owned()))
}

/// Joins the tags of the types by commas; fails on a type that has no tag.
pub fn format_type_list(ts: &Vec<Type>) -> (r: Result<String, AwsError>)
    ensures
        match r {
            Ok(s) => all_supported(ts@) && s@ == list_text(ts@),
            Err(e) => !all_supported(ts@) && e is UnimplementedWasmType,
        },
{
    let mut out = String::new();
    let mut i: usize = 0;
    while i < ts.len()
        invariant
            i <= ts@.len(),
            all_supported(ts@.subrange(0, i as int)),
            out@ == list_text(ts@.subrange(0, i as int)),
        decreases ts@.len() - i,
    {
        let t = ts[i];
        let tag = match t.tag() {
            Ok(s) => s,
            Err(e) => {
                assert(!supported(ts@[i as int]));
                return Err(e);
            },
        };
        let ghost pre = ts@.subrange(0, i as int);
        let ghost next = ts@.subrange(0, i + 1);
        assert(next.drop_last() =~= pre);
        let ghost old_out = out@;
        proof {
            reveal_strlit(",");
        }
        assert(","@ =~= seq![',']);
        if i > 0 {
            out.append(",");
        }
        out.append(tag);
        i += 1;
        assert(all_supported(next)) by {
            assert forall|k: int| 0 <= k < next.len() implies supported(#[trigger] next[k]) by {
                if k < i - 1 {
                    assert(next[k] == pre[k]);
                }
            }
        }
        assert(next.last() == t);
        if i == 1 {
            assert(out@ =~= list_text(next));
        } else {
            assert(out@ =~= old_out + seq![','] + tag@);
            assert(out@ =~= list_text(next));
        }
    }
    assert(ts@.subrange(0, i as int) =~= ts@);
    Ok(out)
}

/// The signature text of a function with these parameter and return types.
pub fn format_signature(params: &Vec<Type>, results: &Vec<Type>) -> (r: Result<String, AwsError>)
    ensures
        match r {
            Ok(s) => all_supported(params@) && all_supported(results@) && s@ == signature_text(
                params@,
                results@,
            ),
            Err(e) => !(all_supported(params@) && all_supported(results@))
                && e is UnimplementedWasmType,
        },
{
    let mut p = format_type_list(params)?;
    let r = format_type_list(results)?;
    proof {
        reveal_strlit("->");
    }
    p.append("->");
    p.append(r.as_str());
    Ok(p)
}

proof fn lemma_pieces_nonempty(s: Seq<char>)
    ensures
        pieces(s).len() >= 1,
    decreases s.len(),
{
    if s.len() > 0 {
        lemma_pieces_nonempty(s.drop_last());
    }
}

/// Appending comma-free text extends the last piece.
proof fn lemma_pieces_extend(x: Seq<char>, y: Seq<char>)
    requires
        forall|k: int| 0 <= k < y.len() ==> y[k] != ',',
    ensures
        pieces(x + y) == pieces(x).update(pieces(x).len() - 1, pieces(x).last() + y),
    decreases y.len(),
{
    lemma_pieces_nonempty(x);
    let p = pieces(x);
    if y.len() == 0 {
        assert(x + y =~= x);
        assert(p.update(p.len() - 1, p.last() + y) =~= p);
    } else {
        let y0 = y.drop_last();
        lemma_pieces_extend(x, y0);
        assert((x + y).drop_last() =~= x + y0);
        assert((x + y).last() == y.last());
        let q = p.update(p.len() - 1, p.last() + y0);
        assert(q.last() == p.last() + y0);
        assert((p.last() + y0).push(y.last()) =~= p.last() + y);
        assert(q.update(q.len() - 1, q.last().push(y.last())) =~= p.update(
            p.len() - 1,
            p.last() + y,
        ));
    }
}

proof fn lemma_pieces_of_list(ts: Seq<Type>)
    requires
        all_supported(ts),
        ts.len() >= 1,
    ensures
        pieces(list_text(ts)) == ts.map_values(|t: Type| tag_text(t).unwrap()),
    decreases ts.len(),
{
    let text = tag_text(ts.last()).unwrap();
    assert(supported(ts[ts.len() - 1]));
    assert forall|k: int| 0 <= k < text.len() implies text[k] != ',' by {}
    if ts.len() == 1 {
        lemma_pieces_extend(Seq::empty(), text);
        assert(Seq::<char>::empty() + text =~= text);
        assert(pieces(Seq::<char>::empty()) == seq![Seq::<char>::empty()]);
        assert(pieces(list_text(ts)) =~= ts.map_values(|t: Type| tag_text(t).unwrap()));
    } else {
        let front = ts.drop_last();
        assert(all_supported(front)) by {
            assert forall|k: int| 0 <= k < front.len() implies supported(#[trigger] front[k]) by {
                assert(front[k] == ts[k]);
            }
        }
        lemma_pieces_of_list(front);
        let a = list_text(front) + seq![','];
        assert(a.drop_last() =~= list_text(front));
        assert(pieces(a) == pieces(list_text(front)).push(Seq::empty()));
        lemma_pieces_extend(a, text);
        assert(list_text(ts) =~= a + text);
        assert(Seq::<char>::empty() + text =~= text);
        assert(pieces(list_text(ts)) =~= ts.map_values(|t: Type| tag_text(t).unwrap()));
    }
}

proof fn lemma_parse_tags(ts: Seq<Type>)
    requires
        all_supported(ts),
    ensures
        parse_pieces(ts.map_values(|t: Type| tag_text(t).unwrap())) == Some(ts),
    decreases ts.len(),
{
    let m = ts.map_values(|t: Type| tag_text(t).unwrap());
    if ts.len() > 0 {
        let front = ts.drop_last();
        assert(all_supported(front)) by {
            assert forall|k: int| 0 <= k < front.len() implies supported(#[trigger] front[k]) by {
                assert(front[k] == ts[k]);
            }
        }
        lemma_parse_tags(front);
        assert(m.drop_last() =~= front.map_values(|t: Type| tag_text(t).unwrap()));
        assert(supported(ts[ts.len() - 1]));
        assert(front.push(ts.last()) =~= ts);
    }
}

proof fn lemma_parse_list_text(ts: Seq<Type>)
    requires
        all_supported(ts),
    ensures
        parse_list(list_text(ts)) == Some(ts),
{
    if ts.len() == 0 {
        let e = seq![Seq::<char>::empty()];
        assert(e.drop_last() =~= Seq::<Seq<char>>::empty());
        assert(ts =~= Seq::<Type>::empty());
        assert(list_text(ts) == Seq::<char>::empty());
        assert(pieces(Seq::<char>::empty()) == e);
        assert(parse_pieces(e.drop_last()) == Some(Seq::<Type>::empty()));
    } else {
        lemma_pieces_of_list(ts);
        lemma_parse_tags(ts);
    }
}

proof fn lemma_tag_no_dash(t: Type)
    requires
        supported(t),
    ensures
        forall|k: int| 0 <= k < tag_text(t).unwrap().len() ==> tag_text(t).unwrap()[k] != '-',
{
}

proof fn lemma_list_text_no_dash(ts: Seq<Type>)
    requires
        all_supported(ts),
    ensures
        forall|k: int| 0 <= k < list_text(ts).len() ==> list_text(ts)[k] != '-',
    decreases ts.len(),
{
    if ts.len() == 1 {
        assert(supported(ts[0]));
        lemma_tag_no_dash(ts[0]);
    } else if ts.len() > 1 {
        let front = ts.drop_last();
        assert(all_supported(front)) by {
            assert forall|k: int| 0 <= k < front.len() implies supported(#[trigger] front[k]) by {
                assert(front[k] == ts[k]);
            }
        }
        lemma_list_text_no_dash(front);
        assert(supported(ts[ts.len() - 1]));
        lemma_tag_no_dash(ts.last());
        let a = list_text(front);
        let b = seq![','];
        let c = tag_text(ts.last()).unwrap();
        assert(list_text(ts) == a + b + c);
        assert forall|k: int| 0 <= k < list_text(ts).len() implies list_text(ts)[k] != '-' by {
            if k < a.len() {
                assert(list_text(ts)[k] == a[k]);
            } else if k == a.len() {
                assert(list_text(ts)[k] == ',');
            } else {
                assert(list_text(ts)[k] == c[k - a.len() - 1]);
            }
        }
    }
}

proof fn lemma_find_arrow_after(s: Seq<char>, i: int, n: int)
    requires
        0 <= i <= n,
        arrow_at(s, n),
        forall|k: int| i <= k < n ==> s[k] != '-',
    ensures
        find_arrow(s, i) == Some(n),
    decreases n - i,
{
    if i < n {
        lemma_find_arrow_after(s, i + 1, n);
    }
}

/// Parsing the text of supported parameter and result lists gives back both lists.
pub proof fn lemma_parse_format(params: Seq<Type>, results: Seq<Type>)
    requires
        all_supported(params),
        all_supported(results),
    ensures
        parse_signature_spec(signature_text(params, results)) == Some((params, results)),
{
    let s = signature_text(params, results);
    let n = list_text(params).len() as int;
    lemma_list_text_no_dash(params);
    assert(arrow_at(s, n));
    lemma_find_arrow_after(s, 0, n);
    assert(s.subrange(0, n) =~= list_text(params));
    assert(s.subrange(n + 2, s.len() as int) =~= list_text(results));
    lemma_parse_list_text(params);
    lemma_parse_list_text(results);
}

/// Round trip: a well-formed signature text parses, and formatting what it parses to
/// gives the same text back.
pub proof fn lemma_signature_round_trip(s: Seq<char>)
    requires
        well_formed_signature(s),
    ensures
        parse_signature_spec(s) matches Some((ps, rs)) && signature_text(ps, rs) == s,
{
    let (ps, rs) = choose|ps: Seq<Type>, rs: Seq<Type>|
        all_supported(ps) && all_supported(rs) && s == #[trigger] signature_text(ps, rs);
    lemma_parse_format(ps, rs);
}

} // verus!
