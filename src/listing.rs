use vstd::prelude::*;

verus! {

/// The characters with Unicode's White_Space property, which `str::trim_end`
/// removes.
pub open spec fn is_white_space(c: char) -> bool {
    let u = c as u32;
    u == 0x20 || (0x09 <= u && u <= 0x0d) || u == 0x85 || u == 0xa0 || u == 0x1680 || (0x2000 <= u
        && u <= 0x200a) || u == 0x2028 || u == 0x2029 || u == 0x202f || u == 0x205f || u == 0x3000
}

/// `s` without its trailing white space.
pub open spec fn trim_end(s: Seq<char>) -> Seq<char>
    decreases s.len(),
{
    if s.len() > 0 && is_white_space(s.last()) {
        trim_end(s.drop_last())
    } else {
        s
    }
}

/// The line that names one template: `" - <name>"` and a line break.
pub open spec fn bullet_line(name: Seq<char>) -> Seq<char> {
    seq![' ', '-', ' '] + name + seq!['\n']
}

/// One bullet line per name, in order.
pub open spec fn bullet_lines(names: Seq<Seq<char>>) -> Seq<char>
    decreases names.len(),
{
    if names.len() == 0 {
        Seq::empty()
    } else {
        bullet_lines(names.drop_last()) + bullet_line(names.last())
    }
}

/// The printed list of templates: the bullet lines without trailing white
/// space.
pub open spec fn list_text(names: Seq<Seq<char>>) -> Seq<char> {
    trim_end(bullet_lines(names))
}

/// Relies on `str::trim_end`: the slice without trailing characters that
/// have the White_Space property.
#[verifier::external_body]
fn trimmed_end(s: &String) -> (r: String)
    ensures
        r@ == trim_end(s@),
{
    s.trim_end().to_string()
}

/// The names of the templates found in the store, in the order found.
pub struct ListTemps {
    templates: Vec<String>,
}

impl ListTemps {
    /// The names gathered so far.
    pub closed spec fn names(&self) -> Seq<Seq<char>> {
        self.templates@.map_values(|s: String| s@)
    }

    /// A list with no names.
    pub fn new() -> (r: ListTemps)
        ensures
            r.names() == Seq::<Seq<char>>::empty(),
    {
        ListTemps { templates: Vec::new() }
    }

    /// Takes the names of the templates found, in the order found.
    pub fn from_names(names: Vec<String>) -> (r: ListTemps)
        ensures
            r.names() == names@.map_values(|s: String| s@),
    {
        ListTemps { templates: names }
    }

    /// Appends the name of one more template.
    pub fn push_template(&mut self, name: String)
        ensures
            final(self).names() == old(self).names().push(name@),
    {
        self.templates.push(name);
        proof {
            assert(self.names() =~= old(self).names().push(name@));
        }
    }

    /// One `" - <name>"` line per template, joined by line breaks, with no
    /// trailing white space.
    pub fn get_list_for_print(&self) -> (r: String)
        ensures
            r@ == list_text(self.names()),
    {
        let mut list_str = String::new();
        let mut i: usize = 0;
        while i < self.templates.len()
            invariant
                i <= self.templates@.len(),
                list_str@ == bullet_lines(self.names().take(i as int)),
            decreases self.templates@.len() - i,
        {
            let name = &self.templates[i];
            list_str.append(" - ");
            list_str.append(name.as_str());
            list_str.append("\n");
            proof {
                reveal_strlit(" - ");
                reveal_strlit("\n");
                let t = self.names().take(i + 1);
                assert(t.drop_last() =~= self.names().take(i as int));
                assert(t.last() == name@);
                assert(list_str@ =~= bullet_lines(t));
            }
            i = i + 1;
        }
        proof {
            assert(self.names().take(i as int) =~= self.names());
        }
        trimmed_end(&list_str)
    }
}

} // verus!
