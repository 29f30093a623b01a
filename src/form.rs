use vstd::prelude::*;

verus! {

/// The position of the first `=` in `s`, if it holds one.
pub open spec fn first_equals(s: Seq<char>) -> Option<int> {
    if exists|i: int| 0 <= i < s.len() && s[i] == '=' {
        Some(choose|i: int| 0 <= i < s.len() && s[i] == '=' && forall|j: int| 0 <= j < i ==> s[j] != '=')
    } else {
        None
    }
}

/// One `name=value` field of a submitted form.
#[derive(Debug)]
pub struct ValueField {
    pub name: String,
    pub value: String,
}

impl ValueField {
    /// Splits `field` at its first `=`: the name comes before it, the value
    /// after it. A field without `=` is all name, with an empty value.
    pub fn parse(field: &str) -> (r: ValueField)
        ensures
            match first_equals(field@) {
                Some(i) => r.name@ == field@.subrange(0, i) && r.value@ == field@.subrange(
                    i + 1,
                    field@.len() as int,
                ),
                None => r.name@ == field@ && r.value@ == Seq::<char>::empty(),
            },
    {
        let n = field.unicode_len();
        let mut i: usize = 0;
        while i < n
            invariant
                n == field@.len(),
                0 <= i <= n,
                forall|j: int| 0 <= j < i ==> field@[j] != '=',
            decreases n - i,
        {
            if field.get_char(i) == '=' {
                let name = field.substring_char(0, i).to_owned();
                let value = field.substring_char(i + 1, n).to_owned();
                proof {
                    let k = first_equals(field@)->Some_0;
                    assert(field@[i as int] == '=');
                    if k < i {
                        assert(field@[k] != '=');
                    } else if k > i {
                        assert(field@[i as int] != '=');
                    }
                }
                return ValueField { name, value };
            }
            i += 1;
        }
        proof {
            if exists|i: int| 0 <= i < field@.len() && field@[i] == '=' {
                let k = choose|i: int| 0 <= i < field@.len() && field@[i] == '=';
                assert(field@[k] != '=');
            }
        }
        ValueField { name: field.to_owned(), value: String::new() }
    }
}

} // verus!
