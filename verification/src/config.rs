//! Settings read from the configuration file: named sections of values, reached by dotted names.
use vstd::prelude::*;
use crate::text::{parse_u32, parse_u32_spec, push_char, text_eq};

verus! {

/// A value of the configuration file.
pub enum ConfigValue {
    Integer(i64),
    Str(String),
    Array(Vec<ConfigValue>),
    Table(Vec<(String, ConfigValue)>),
    /// Any other kind of value (float, boolean, date).
    Other,
}

/// The value under the first entry with the given name.
pub open spec fn entry_value(entries: Seq<(String, ConfigValue)>, name: Seq<char>) -> Option<ConfigValue>
    decreases entries.len(),
{
    if entries.len() == 0 {
        None
    } else if entries[0].0@ == name {
        Some(entries[0].1)
    } else {
        entry_value(entries.drop_first(), name)
    }
}

/// A dotted name cut at each `.` into the names along its path.
pub open spec fn path_of(name: Seq<char>) -> Seq<Seq<char>>
    decreases name.len(),
{
    if name.len() == 0 {
        seq![Seq::<char>::empty()]
    } else {
        let rest = path_of(name.drop_last());
        if name.last() == '.' {
            rest.push(Seq::empty())
        } else {
            rest.update(rest.len() - 1, rest.last().push(name.last()))
        }
    }
}

/// Following a path from a value: a table is entered by name, an array by position (a number);
/// anything else, a name that a table does not have, or a position past an array's end, leads
/// nowhere.
pub open spec fn follow(v: ConfigValue, path: Seq<Seq<char>>) -> Option<ConfigValue>
    decreases path.len(),
{
    if path.len() == 0 {
        Some(v)
    } else {
        let step = match v {
            ConfigValue::Table(entries) => entry_value(entries@, path[0]),
            ConfigValue::Array(items) => match parse_u32_spec(path[0]) {
                Ok(i) => if i < items@.len() { Some(items@[i as int]) } else { None },
                Err(_) => None,
            },
            _ => None,
        };
        match step {
            Some(next) => follow(next, path.drop_first()),
            None => None,
        }
    }
}

/// Whether every element of an array is an integer.
pub open spec fn all_integers(items: Seq<ConfigValue>) -> bool {
    forall|i: int| 0 <= i < items.len() ==> #[trigger] items[i] is Integer
}

/// Whether every element of an array is a string.
pub open spec fn all_strs(items: Seq<ConfigValue>) -> bool {
    forall|i: int| 0 <= i < items.len() ==> #[trigger] items[i] is Str
}

/// The configuration: the file's top-level entries, each section a value (usually a table).
pub struct ConfigManager {
    sections: Vec<(String, ConfigValue)>,
}

proof fn lemma_path_not_empty(name: Seq<char>)
    ensures
        path_of(name).len() >= 1,
    decreases name.len(),
{
    if name.len() > 0 {
        lemma_path_not_empty(name.drop_last());
    }
}

/// The names along a dotted name's path.
pub fn split_path(name: &str) -> (res: Vec<String>)
    ensures
        res@.map_values(|s: String| s@) == path_of(name@),
{
    let cs = crate::text::chars_of(name);
    let mut done: Vec<String> = Vec::new();
    let mut cur = String::new();
    let n = cs.len();
    assert(name@.take(0) =~= Seq::<char>::empty());
    for i in 0..n
        invariant
            n == cs@.len(),
            cs@ == name@,
            done@.map_values(|s: String| s@).push(cur@) == path_of(name@.take(i as int)),
    {
        let c = cs[i];
        proof {
            assert(name@.take(i + 1).drop_last() =~= name@.take(i as int));
            assert(name@.take(i + 1).last() == c);
            lemma_path_not_empty(name@.take(i as int));
        }
        if c == '.' {
            let ghost before = done@.map_values(|s: String| s@).push(cur@);
            let finished = cur;
            done.push(finished);
            cur = String::new();
            assert(done@.map_values(|s: String| s@).push(cur@) =~= before.push(Seq::empty()));
        } else {
            let ghost before = done@.map_values(|s: String| s@).push(cur@);
            push_char(&mut cur, c);
            assert(done@.map_values(|s: String| s@).push(cur@) =~= before.update(before.len() - 1, before.last().push(c)));
        }
    }
    assert(name@.take(n as int) =~= name@);
    proof { lemma_path_not_empty(name@); }
    let ghost whole = done@.map_values(|s: String| s@).push(cur@);
    done.push(cur);
    assert(done@.map_values(|s: String| s@) =~= whole);
    done
}

fn entry_of<'a>(entries: &'a Vec<(String, ConfigValue)>, name: &str) -> (res: Option<&'a ConfigValue>)
    ensures
        match res {
            Some(v) => entry_value(entries@, name@) == Some(*v),
            None => entry_value(entries@, name@) is None,
        },
{
    let n = entries.len();
    let mut i: usize = 0;
    assert(entries@.skip(0) =~= entries@);
    while i < n
        invariant
            n == entries@.len(),
            i <= n,
            entry_value(entries@, name@) == entry_value(entries@.skip(i as int), name@),
        decreases n - i,
    {
        assert(entries@.skip(i as int)[0] == entries@[i as int]);
        if text_eq(entries[i].0.as_str(), name) {
            return Some(&entries[i].1);
        }
        assert(entries@.skip(i as int).drop_first() =~= entries@.skip(i + 1));
        i = i + 1;
    }
    None
}

fn follow_path<'a>(v: &'a ConfigValue, path: &Vec<String>) -> (res: Option<&'a ConfigValue>)
    ensures
        match res {
            Some(r) => follow(*v, path@.map_values(|s: String| s@)) == Some(*r),
            None => follow(*v, path@.map_values(|s: String| s@)) is None,
        },
{
    let ghost p = path@.map_values(|s: String| s@);
    let mut cur: &ConfigValue = v;
    let n = path.len();
    let mut k: usize = 0;
    assert(p.skip(0) =~= p);
    while k < n
        invariant
            n == path@.len(),
            p == path@.map_values(|s: String| s@),
            k <= n,
            follow(*v, p) == follow(*cur, p.skip(k as int)),
        decreases n - k,
    {
        let ghost rest = p.skip(k as int);
        assert(rest[0] == path@[k as int]@);
        assert(rest.drop_first() =~= p.skip(k + 1));
        let next: Option<&ConfigValue> = match cur {
            ConfigValue::Table(entries) => entry_of(entries, path[k].as_str()),
            ConfigValue::Array(items) => match parse_u32(path[k].as_str()) {
                Ok(i) => if (i as usize) < items.len() { Some(&items[i as usize]) } else { None },
                Err(_) => None,
            },
            _ => None,
        };
        match next {
            Some(x) => { cur = x; },
            None => { return None; },
        }
        k = k + 1;
    }
    assert(p.skip(n as int) =~= Seq::<Seq<char>>::empty());
    Some(cur)
}

impl ConfigManager {
    /// The value that dotted name `attr` reaches in section `section`, if any.
    pub open spec fn lookup_spec(&self, section: Seq<char>, attr: Seq<char>) -> Option<ConfigValue> {
        match entry_value(self.sections_spec(), section) {
            Some(sec) => follow(sec, path_of(attr)),
            None => None,
        }
    }

    /// The top-level entries.
    pub closed spec fn sections_spec(&self) -> Seq<(String, ConfigValue)> {
        self.sections@
    }

    /// Whether setting `attr` of section `section` is a string.
    pub open spec fn has_str(&self, section: Seq<char>, attr: Seq<char>) -> bool {
        self.lookup_spec(section, attr) matches Some(ConfigValue::Str(_))
    }

    /// The string setting `attr` of section `section`.
    pub open spec fn str_of(&self, section: Seq<char>, attr: Seq<char>) -> Seq<char> {
        match self.lookup_spec(section, attr) {
            Some(ConfigValue::Str(s)) => s@,
            _ => Seq::empty(),
        }
    }

    /// A configuration holding the given top-level entries, in order.
    pub fn new(sections: Vec<(String, ConfigValue)>) -> (res: ConfigManager)
        ensures
            res.sections_spec() == sections@,
    {
        ConfigManager { sections }
    }

    /// The value that dotted name `attr_name` reaches in section `section`, if any: `a.b` is
    /// entry `b` of table `a` of the section, `a.0` the first element of array `a`.
    pub fn get<'a>(&'a self, section: &str, attr_name: &str) -> (res: Option<&'a ConfigValue>)
        ensures
            match res {
                Some(v) => self.lookup_spec(section@, attr_name@) == Some(*v),
                None => self.lookup_spec(section@, attr_name@) is None,
            },
    {
        match entry_of(&self.sections, section) {
            Some(sec) => {
                let path = split_path(attr_name);
                follow_path(sec, &path)
            },
            None => None,
        }
    }

    /// The integer setting `attr_name` of section `section`. The setting must exist and be an
    /// integer.
    pub fn get_config_num(&self, section: &str, attr_name: &str) -> (res: i64)
        requires
            self.lookup_spec(section@, attr_name@) matches Some(ConfigValue::Integer(_)),
        ensures
            self.lookup_spec(section@, attr_name@) == Some(ConfigValue::Integer(res)),
    {
        match self.get(section, attr_name) {
            Some(ConfigValue::Integer(n)) => *n,
            _ => { assert(false); 0 },
        }
    }

    /// The string setting `attr_name` of section `section`. The setting must exist and be a
    /// string.
    pub fn get_config_str(&self, section: &str, attr_name: &str) -> (res: String)
        requires
            self.has_str(section@, attr_name@),
        ensures
            res@ == self.str_of(section@, attr_name@),
    {
        match self.get(section, attr_name) {
            Some(ConfigValue::Str(s)) => s.clone(),
            _ => { assert(false); String::new() },
        }
    }

    /// The integer array setting `attr_name` of section `section`, in order. The setting must
    /// exist and be an array of integers.
    pub fn get_config_num_arr(&self, section: &str, attr_name: &str) -> (res: Vec<i64>)
        requires
            self.lookup_spec(section@, attr_name@) matches Some(ConfigValue::Array(items)) && all_integers(items@),
        ensures
            self.lookup_spec(section@, attr_name@) matches Some(ConfigValue::Array(items)) && items@.len() == res@.len()
                && forall|i: int| 0 <= i < res@.len() ==> items@[i] == ConfigValue::Integer(#[trigger] res@[i]),
    {
        match self.get(section, attr_name) {
            Some(ConfigValue::Array(items)) => {
                let mut vecret: Vec<i64> = Vec::new();
                let n = items.len();
                for k in 0..n
                    invariant
                        n == items@.len(),
                        all_integers(items@),
                        vecret@.len() == k,
                        forall|i: int| 0 <= i < k ==> items@[i] == ConfigValue::Integer(#[trigger] vecret@[i]),
                {
                    match &items[k] {
                        ConfigValue::Integer(x) => vecret.push(*x),
                        _ => { assert(items@[k as int] is Integer); },
                    }
                }
                vecret
            },
            _ => { assert(false); Vec::new() },
        }
    }

    /// The string array setting `attr_name` of section `section`, in order. The setting must
    /// exist and be an array of strings.
    pub fn get_config_str_arr(&self, section: &str, attr_name: &str) -> (res: Vec<String>)
        requires
            self.lookup_spec(section@, attr_name@) matches Some(ConfigValue::Array(items)) && all_strs(items@),
        ensures
            self.lookup_spec(section@, attr_name@) matches Some(ConfigValue::Array(items)) && items@.len() == res@.len()
                && forall|i: int| 0 <= i < res@.len() ==> (items@[i] matches ConfigValue::Str(s) && s@ == (#[trigger] res@[i])@),
    {
        match self.get(section, attr_name) {
            Some(ConfigValue::Array(items)) => {
                let mut vecret: Vec<String> = Vec::new();
                let n = items.len();
                for k in 0..n
                    invariant
                        n == items@.len(),
                        all_strs(items@),
                        vecret@.len() == k,
                        forall|i: int| 0 <= i < k ==> (items@[i] matches ConfigValue::Str(s) && s@ == (#[trigger] vecret@[i])@),
                {
                    match &items[k] {
                        ConfigValue::Str(x) => vecret.push(x.clone()),
                        _ => { assert(items@[k as int] is Str); },
                    }
                }
                vecret
            },
            _ => { assert(false); Vec::new() },
        }
    }
}

} // verus!
