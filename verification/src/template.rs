//! The text of a freshly created configuration file that lists the fields
//! and leaves their values open.

use vstd::prelude::*;

verus! {

/// The line for one field: its name, an equals sign, and nothing after it.
pub open spec fn field_line(name: Seq<char>) -> Seq<char> {
    name + seq!['=', '\n']
}

/// The lines of `names`, one after the other.
pub open spec fn template_text(names: Seq<Seq<char>>) -> Seq<char>
    decreases names.len(),
{
    if names.len() == 0 {
        Seq::empty()
    } else {
        template_text(names.drop_last()) + field_line(names.last())
    }
}

/// What the strings in `fields` hold.
pub open spec fn field_names(fields: Seq<&str>) -> Seq<Seq<char>> {
    Seq::new(fields.len(), |i: int| fields[i]@)
}

/// The template for a type with the fields `fields`: one `name=` line per
/// field, in the order given.
pub fn field_template(fields: &[&str]) -> (out: String)
    ensures
        out@ == template_text(field_names(fields@)),
{
    let mut out = String::new();
    let mut i: usize = 0;
    while i < fields.len()
        invariant
            i <= fields@.len(),
            out@ == template_text(field_names(fields@).take(i as int)),
        decreases fields@.len() - i,
    {
        proof {
            reveal_strlit("=\n");
            let before = field_names(fields@).take(i as int);
            let after = field_names(fields@).take(i + 1);
            assert(after.drop_last() =~= before);
            assert("=\n"@ =~= seq!['=', '\n']);
        }
        out.append(fields[i]);
        out.append("=\n");
        i = i + 1;
        assert(out@ =~= template_text(field_names(fields@).take(i as int)));
    }
    assert(field_names(fields@).take(i as int) =~= field_names(fields@));
    out
}

/// The template of some fields followed by one more is the template of the
/// former followed by the line of the latter.
pub proof fn template_grows_by_one_line(names: Seq<Seq<char>>, name: Seq<char>)
    ensures
        template_text(names.push(name)) == template_text(names) + field_line(name),
{
    assert(names.push(name).drop_last() =~= names);
}

/// The template of two lists of fields, one after the other, is the two
/// templates one after the other: every field has its line, in order.
pub proof fn template_of_concat(first: Seq<Seq<char>>, second: Seq<Seq<char>>)
    ensures
        template_text(first + second) == template_text(first) + template_text(second),
    decreases second.len(),
{
    if second.len() == 0 {
        assert(first + second =~= first);
    } else {
        template_of_concat(first, second.drop_last());
        assert((first + second).drop_last() =~= first + second.drop_last());
        assert((first + second).last() == second.last());
    }
}

/// A template is as long as its fields' names together, and two characters
/// more for each field.
pub proof fn template_length(names: Seq<Seq<char>>)
    ensures
        template_text(names).len() == names.fold_left(0int, |n: int, name: Seq<char>| n + name.len())
            + 2 * names.len(),
    decreases names.len(),
{
    if names.len() > 0 {
        template_length(names.drop_last());
    }
}

} // verus!
