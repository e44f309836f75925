//! The table from backend type names to their TypeScript names.
use vstd::prelude::*;

verus! {

/// The TypeScript name that `entries` gives the backend type `key`: the one
/// registered last for it, if any.
pub open spec fn lookup(entries: Seq<(Seq<char>, Seq<char>)>, key: Seq<char>) -> Option<Seq<char>>
    decreases entries.len(),
{
    if entries.len() == 0 {
        None
    } else if entries.last().0 == key {
        Some(entries.last().1)
    } else {
        lookup(entries.drop_last(), key)
    }
}

/// Relies on ts-rs: `<String as TS>::name()` is `"string"`.
#[verifier::external_body]
fn ts_name_string() -> (r: String)
    ensures
        r@ == "string"@,
{
    <String as ts_rs::TS>::name()
}

/// Relies on ts-rs: `<bool as TS>::name()` is `"boolean"`.
#[verifier::external_body]
fn ts_name_bool() -> (r: String)
    ensures
        r@ == "boolean"@,
{
    <bool as ts_rs::TS>::name()
}

/// Relies on ts-rs: `<u8 as TS>::name()` is `"number"`.
#[verifier::external_body]
fn ts_name_u8() -> (r: String)
    ensures
        r@ == "number"@,
{
    <u8 as ts_rs::TS>::name()
}

/// Relies on ts-rs: `<i32 as TS>::name()` is `"number"`.
#[verifier::external_body]
fn ts_name_i32() -> (r: String)
    ensures
        r@ == "number"@,
{
    <i32 as ts_rs::TS>::name()
}

/// Relies on ts-rs: `<u32 as TS>::name()` is `"number"`.
#[verifier::external_body]
fn ts_name_u32() -> (r: String)
    ensures
        r@ == "number"@,
{
    <u32 as ts_rs::TS>::name()
}

/// Relies on ts-rs: `<usize as TS>::name()` is `"number"`.
#[verifier::external_body]
fn ts_name_usize() -> (r: String)
    ensures
        r@ == "number"@,
{
    <usize as ts_rs::TS>::name()
}

/// Relies on ts-rs: `<i64 as TS>::name()` is `"bigint"`.
#[verifier::external_body]
fn ts_name_i64() -> (r: String)
    ensures
        r@ == "bigint"@,
{
    <i64 as ts_rs::TS>::name()
}

/// Relies on ts-rs: `<u64 as TS>::name()` is `"bigint"`.
#[verifier::external_body]
fn ts_name_u64() -> (r: String)
    ensures
        r@ == "bigint"@,
{
    <u64 as ts_rs::TS>::name()
}

/// The entries that `TypeRegistry::with_builtins` starts from.
pub open spec fn builtin_entries() -> Seq<(Seq<char>, Seq<char>)> {
    seq![
        ("String"@, "string"@),
        ("bool"@, "boolean"@),
        ("u8"@, "number"@),
        ("i32"@, "number"@),
        ("u32"@, "number"@),
        ("usize"@, "number"@),
        ("i64"@, "bigint"@),
        ("u64"@, "bigint"@),
    ]
}

/// Maps backend type names to the names their values have in TypeScript.
/// A type that was registered more than once has the name registered last.
pub struct TypeRegistry {
    entries: Vec<(String, String)>,
}

impl View for TypeRegistry {
    type V = Seq<(Seq<char>, Seq<char>)>;

    closed spec fn view(&self) -> Self::V {
        self.entries@.map_values(|e: (String, String)| (e.0@, e.1@))
    }
}

impl TypeRegistry {
    /// A registry that knows no type.
    pub fn new() -> (r: TypeRegistry)
        ensures
            r@ == Seq::<(Seq<char>, Seq<char>)>::empty(),
    {
        let r = TypeRegistry { entries: Vec::new() };
        assert(r@ =~= Seq::<(Seq<char>, Seq<char>)>::empty());
        r
    }

    /// Records that the backend type `rust` is named `ts` in TypeScript.
    pub fn register(&mut self, rust: String, ts: String)
        ensures
            final(self)@ == old(self)@.push((rust@, ts@)),
    {
        self.entries.push((rust, ts));
        assert(final(self)@ =~= old(self)@.push((rust@, ts@)));
    }

    /// A registry holding the TypeScript names that ts-rs gives the
    /// primitive types.
    pub fn with_builtins() -> (r: TypeRegistry)
        ensures
            r@ == builtin_entries(),
    {
        let mut r = TypeRegistry::new();
        r.register(String::from_str("String"), ts_name_string());
        r.register(String::from_str("bool"), ts_name_bool());
        r.register(String::from_str("u8"), ts_name_u8());
        r.register(String::from_str("i32"), ts_name_i32());
        r.register(String::from_str("u32"), ts_name_u32());
        r.register(String::from_str("usize"), ts_name_usize());
        r.register(String::from_str("i64"), ts_name_i64());
        r.register(String::from_str("u64"), ts_name_u64());
        assert(r@ =~= builtin_entries());
        r
    }

    /// The TypeScript name of the backend type `rust`, if it was registered.
    pub fn ts_name(&self, rust: &String) -> (r: Option<String>)
        ensures
            match r {
                Some(t) => lookup(self@, rust@) == Some(t@),
                None => lookup(self@, rust@) is None,
            },
    {
        let mut j: usize = self.entries.len();
        assert(self@.subrange(0, j as int) =~= self@);
        while j > 0
            invariant
                j <= self.entries@.len(),
                self@.len() == self.entries@.len(),
                lookup(self@, rust@) == lookup(self@.subrange(0, j as int), rust@),
            decreases j,
        {
            let e = &self.entries[j - 1];
            assert(self@[j - 1] == (e.0@, e.1@));
            if e.0 == *rust {
                return Some(e.1.clone());
            }
            assert(self@.subrange(0, j as int).drop_last() =~= self@.subrange(0, j - 1));
            j = j - 1;
        }
        None
    }
}

} // verus!
