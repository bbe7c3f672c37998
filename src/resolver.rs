use vstd::prelude::*;
use vstd::string::*;
use crate::error::Error;

verus! {

/// A light as the bridge lists it: the identifier used for every write, and
/// the name used to find it.
#[derive(Clone, Debug, PartialEq, Eq)]
pub struct LightRef {
    pub id: String,
    pub name: String,
}

/// How a light token is to be looked up.
#[derive(Debug, PartialEq, Eq)]
pub enum LightQuery {
    /// The token is a light number, kept as written: fetch that one light.
    Number(String),
    /// The token is a name: fetch all lights and match their names.
    Name,
}

/// The error code with which the bridge says that a resource does not exist.
pub const RESOURCE_NOT_AVAILABLE: u64 = 3;

pub open spec fn is_digit(c: char) -> bool {
    '0' <= c && c <= '9'
}

/// The digits of an unsigned number: a leading `+` is dropped when more follows.
pub open spec fn unsigned_digits(s: Seq<char>) -> Seq<char> {
    if s.len() > 1 && s[0] == '+' {
        s.subrange(1, s.len() as int)
    } else {
        s
    }
}

/// Whether `s` writes a non-negative integer in decimal, of any size.
pub open spec fn spec_is_light_number(s: Seq<char>) -> bool {
    let d = unsigned_digits(s);
    d.len() > 0 && forall|i: int| 0 <= i < d.len() ==> is_digit(#[trigger] d[i])
}

/// Whether `s` is a light number: decimal digits, optionally after a `+`.
pub fn is_light_number(s: &str) -> (r: bool)
    ensures
        r == spec_is_light_number(s@),
{
    let n = s.unicode_len();
    let start: usize = if n > 1 && s.get_char(0) == '+' { 1 } else { 0 };
    let ghost d = unsigned_digits(s@);
    assert(d =~= s@.subrange(start as int, n as int));
    if start == n {
        return false;
    }
    let mut i: usize = start;
    while i < n
        invariant
            start <= i <= n,
            n == s@.len(),
            d =~= s@.subrange(start as int, n as int),
            d == unsigned_digits(s@),
            forall|j: int| 0 <= j < i - start ==> is_digit(#[trigger] d[j]),
        decreases n - i,
    {
        let c = s.get_char(i);
        assert(d[i - start] == c);
        if !('0' <= c && c <= '9') {
            assert(!is_digit(d[i - start]));
            return false;
        }
        i = i + 1;
    }
    true
}

/// How `light` is looked up: a token that reads as a non-negative integer is
/// fetched directly by that number, and never by fetching the whole collection.
pub fn light_query(light: &str) -> (r: LightQuery)
    ensures
        spec_is_light_number(light@) ==> (r matches LightQuery::Number(n) && n@ == light@),
        !spec_is_light_number(light@) ==> r == LightQuery::Name,
{
    if is_light_number(light) {
        LightQuery::Number(light.to_owned())
    } else {
        LightQuery::Name
    }
}

/// The error for a failed fetch of one light by number: `NoLightFound` where
/// the bridge says that the light does not exist, the bridge's message
/// otherwise.
pub fn light_fetch_error(code: Option<u64>, message: String) -> (r: Error)
    ensures
        code == Some(RESOURCE_NOT_AVAILABLE) ==> r == Error::NoLightFound,
        code != Some(RESOURCE_NOT_AVAILABLE) ==> (r matches Error::PhilipsHue(m) && m@ == message@),
{
    match code {
        Some(c) if c == RESOURCE_NOT_AVAILABLE => Error::NoLightFound,
        _ => Error::PhilipsHue(message),
    }
}

/// What `str::to_lowercase` makes of a string.
pub uninterp spec fn lower_of(s: Seq<char>) -> Seq<char>;

/// Relies on `str::to_lowercase`: its result depends on the characters alone.
#[verifier::external_body]
fn lowercase(s: &str) -> (r: String)
    ensures
        r@ == lower_of(s@),
{
    s.to_lowercase()
}

/// The position of the first name equal to `token`, if one is.
pub fn first_name_match(names: &Vec<String>, token: &String) -> (r: Option<usize>)
    ensures
        r matches Some(i) ==> i < names@.len() && names@[i as int]@ == token@ && forall|j: int|
            0 <= j < i ==> names@[j]@ != token@,
        r is None ==> forall|j: int| 0 <= j < names@.len() ==> names@[j]@ != token@,
{
    let mut i: usize = 0;
    while i < names.len()
        invariant
            i <= names@.len(),
            forall|j: int| 0 <= j < i ==> names@[j]@ != token@,
        decreases names@.len() - i,
    {
        if names[i] == *token {
            return Some(i);
        }
        i = i + 1;
    }
    None
}

/// The position of the first light whose name matches `light` without regard
/// to case: both sides are lowercased before they are compared.
pub fn find_light_by_name(lights: &Vec<LightRef>, light: &str) -> (r: Option<usize>)
    ensures
        r matches Some(i) ==> i < lights@.len() && lower_of(lights@[i as int].name@) == lower_of(
            light@,
        ) && forall|j: int| 0 <= j < i ==> lower_of(lights@[j].name@) != lower_of(light@),
        r is None ==> forall|j: int|
            0 <= j < lights@.len() ==> lower_of(lights@[j].name@) != lower_of(light@),
{
    let mut names: Vec<String> = Vec::new();
    let mut i: usize = 0;
    while i < lights.len()
        invariant
            i <= lights@.len(),
            names@.len() == i,
            forall|j: int| 0 <= j < i ==> names@[j]@ == lower_of(lights@[j].name@),
        decreases lights@.len() - i,
    {
        names.push(lowercase(lights[i].name.as_str()));
        i = i + 1;
    }
    let token = lowercase(light);
    let r = first_name_match(&names, &token);
    assert forall|j: int| 0 <= j < lights@.len() implies names@[j]@ == lower_of(
        #[trigger] lights@[j].name@,
    ) by {}
    r
}

/// The first light whose name matches `light` without regard to case, or
/// `NoLightFound` where none does.
pub fn select_light_by_name(lights: &Vec<LightRef>, light: &str) -> (r: Result<usize, Error>)
    ensures
        r matches Ok(i) ==> i < lights@.len() && lower_of(lights@[i as int].name@) == lower_of(
            light@,
        ) && forall|j: int| 0 <= j < i ==> lower_of(lights@[j].name@) != lower_of(light@),
        r is Err ==> r matches Err(Error::NoLightFound),
        r is Err <==> forall|j: int|
            0 <= j < lights@.len() ==> lower_of(lights@[j].name@) != lower_of(light@),
{
    match find_light_by_name(lights, light) {
        Some(i) => Ok(i),
        None => Err(Error::NoLightFound),
    }
}

} // verus!
