//! The list handler: picks one item of a comma- or space-separated list.

use vstd::prelude::*;
use crate::answers::{pick_template_table, pick_templates};
use crate::chance::index_below;
use crate::handlers::entry;
use crate::text::{
    chars_of, contains_char, fill, fill_chars, split_chars, split_on, string_of, trim, trim_chars,
    views_of,
};

verus! {

/// What the list handler says when it is given no item.
pub const NO_ITEMS: &'static str = "Segmentation Fault";

/// Items are separated by commas where there is one, else by spaces.
pub open spec fn list_sep(args: Seq<char>) -> char {
    if args.contains(',') {
        ','
    } else {
        ' '
    }
}

/// The pieces, trimmed, without the empty ones.
pub open spec fn kept(pieces: Seq<Seq<char>>) -> Seq<Seq<char>>
    decreases pieces.len(),
{
    if pieces.len() == 0 {
        pieces
    } else {
        let r = kept(pieces.drop_last());
        let t = trim(pieces.last());
        if t.len() > 0 {
            r.push(t)
        } else {
            r
        }
    }
}

/// The items that the list handler picks from.
pub open spec fn choices(args: Seq<char>) -> Seq<Seq<char>> {
    kept(split_on(args, list_sep(args)))
}

fn choice_chars(args: &Vec<char>) -> (r: Vec<Vec<char>>)
    ensures
        views_of(r@) == choices(args@),
{
    let sep = if contains_char(args, ',') {
        ','
    } else {
        ' '
    };
    let pieces = split_chars(args, sep);
    let mut r: Vec<Vec<char>> = Vec::new();
    assert(views_of(pieces@).subrange(0, 0) =~= Seq::<Seq<char>>::empty());
    assert(views_of(r@) =~= kept(views_of(pieces@).subrange(0, 0)));
    for i in 0..pieces.len()
        invariant
            views_of(pieces@) == split_on(args@, sep),
            views_of(r@) == kept(views_of(pieces@).subrange(0, i as int)),
    {
        let ghost ps = views_of(pieces@);
        assert(ps.subrange(0, i + 1).drop_last() == ps.subrange(0, i as int));
        assert(ps.subrange(0, i + 1).last() == pieces@[i as int]@);
        let t = trim_chars(&pieces[i]);
        if t.len() > 0 {
            r.push(t);
        }
        assert(views_of(r@) =~= kept(ps.subrange(0, i + 1)));
    }
    assert(views_of(pieces@).subrange(0, pieces.len() as int) == views_of(pieces@));
    r
}

/// The items of `args` that the list handler picks from.
pub fn list_choices(args: &str) -> (r: Vec<String>)
    ensures
        r@.map_values(|s: String| s@) == choices(args@),
{
    let items = choice_chars(&chars_of(args));
    let mut r: Vec<String> = Vec::new();
    for i in 0..items.len()
        invariant
            views_of(items@) == choices(args@),
            r.len() == i,
            r@.map_values(|s: String| s@) == views_of(items@).subrange(0, i as int),
    {
        let ghost r0 = r@;
        let s = string_of(&items[i]);
        r.push(s);
        assert(r@ == r0.push(s));
        assert(r@.map_values(|s: String| s@)[i as int] == views_of(items@)[i as int]);
        assert(r@.map_values(|s: String| s@) =~= views_of(items@).subrange(0, i + 1));
    }
    assert(views_of(items@).subrange(0, items.len() as int) == views_of(items@));
    r
}

/// The list handler's answer: `item` put in the phrasing `template`.
pub fn list_answer(item: &str, template: usize) -> (r: String)
    requires
        template < pick_templates().len(),
    ensures
        r@ == fill(pick_templates()[template as int], item@),
{
    let t = entry(&pick_template_table(), template);
    string_of(&fill_chars(&chars_of(t), &chars_of(item)))
}

/// What the list handler may answer for `args`.
pub open spec fn list_ok(args: Seq<char>, s: Seq<char>) -> bool {
    if choices(args).len() == 0 {
        s == NO_ITEMS@
    } else {
        exists|i: int, t: int|
            0 <= i < choices(args).len() && 0 <= t < pick_templates().len() && s == fill(
                pick_templates()[t],
                choices(args)[i],
            )
    }
}

/// One of the items of `args`, drawn uniformly, in a phrasing drawn
/// uniformly; a fixed sentinel where there is no item.
pub fn list(args: &str) -> (r: String)
    ensures
        list_ok(args@, r@),
{
    let items = choice_chars(&chars_of(args));
    if items.len() == 0 {
        return NO_ITEMS.to_owned();
    }
    let i = index_below(items.len());
    let t = index_below(pick_template_table().len());
    let r = list_answer(string_of(&items[i]).as_str(), t);
    assert(items@[i as int]@ == choices(args@)[i as int]);
    r
}

} // verus!
