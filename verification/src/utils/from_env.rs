//! Loading values from a table of named string variables.
//!
//! A [`FromEnvVar`] type is read from one variable; a [`FromEnv`] type is
//! put together from several loads and can list every variable it may read.
//! All loads take the table of variables, an [`Env`], as an argument.

use std::convert::Infallible;
use vstd::hash_map::StringHashMap;
use vstd::prelude::*;
use vstd::std_specs::iter::IteratorSpec;
use vstd::string::{StrSliceExecFns, StringExecFns};

use crate::utils::decimal::{
    parse_decimal, parse_i128, parse_i16, parse_i32, parse_i64, parse_i8, parse_isize, parse_u128,
    parse_u16, parse_u32, parse_u64, parse_u8, parse_usize, ParseIntError,
};

verus! {

/// What is known about one named input: its name, what it is for, and
/// whether it may be left out.
#[derive(Debug, Clone, Copy, PartialEq, Eq)]
pub struct EnvItemInfo {
    /// The variable's name.
    pub var: &'static str,
    /// What the variable configures.
    pub description: &'static str,
    /// Whether the variable may be absent. This is information for the
    /// reader of an inventory; it does not change how the variable is loaded.
    pub optional: bool,
}

/// The mathematical content of an [`EnvItemInfo`].
pub struct ItemInfo {
    pub var: Seq<char>,
    pub description: Seq<char>,
    pub optional: bool,
}

impl View for EnvItemInfo {
    type V = ItemInfo;

    open spec fn view(&self) -> ItemInfo {
        ItemInfo { var: self.var@, description: self.description@, optional: self.optional }
    }
}

/// Why a variable could not be read.
#[derive(Debug, Clone, Copy, PartialEq, Eq, Structural)]
pub enum VarError {
    /// No variable of that name is bound.
    NotPresent,
    /// The variable is bound to data that is not text.
    NotUnicode,
}

impl VarError {
    /// What the failure says of the variable.
    pub open spec fn text(self) -> Seq<char> {
        match self {
            VarError::NotPresent => "environment variable not found"@,
            VarError::NotUnicode => "environment variable was not valid unicode"@,
        }
    }

    /// What the failure says of the variable.
    pub fn message(&self) -> (text: &'static str)
        ensures
            text@ == self.text(),
    {
        match self {
            VarError::NotPresent => "environment variable not found",
            VarError::NotUnicode => "environment variable was not valid unicode",
        }
    }
}

/// Why a load failed.
///
/// The first two variants say that the input itself was missing or blank;
/// they name the variable and never hold an `Inner`. The third says that the
/// text was there and the type could not be made from it.
#[derive(Debug, Clone, PartialEq, Eq)]
pub enum FromEnvErr<Inner> {
    /// The variable could not be read.
    EnvError(String, VarError),
    /// The variable is bound to the empty string.
    Empty(String),
    /// The variable's text could not be turned into the value.
    ParseError(Inner),
}

/// The mathematical content of a [`FromEnvErr`].
pub enum Failure<Inner> {
    EnvError(Seq<char>, VarError),
    Empty(Seq<char>),
    ParseError(Inner),
}

impl<Inner> View for FromEnvErr<Inner> {
    type V = Failure<Inner>;

    open spec fn view(&self) -> Failure<Inner> {
        match *self {
            FromEnvErr::EnvError(name, cause) => Failure::EnvError(name@, cause),
            FromEnvErr::Empty(name) => Failure::Empty(name@),
            FromEnvErr::ParseError(inner) => Failure::ParseError(inner),
        }
    }
}

impl<Inner> Failure<Inner> {
    /// Whether the failure lies with the input, not with its text.
    pub open spec fn is_provenance(self) -> bool {
        !(self is ParseError)
    }

    /// The same failure under another inner type; `on_parse` says what
    /// becomes of the inner error.
    pub open spec fn retag<New>(self, on_parse: spec_fn(Inner) -> New) -> Failure<New> {
        match self {
            Failure::EnvError(name, cause) => Failure::EnvError(name, cause),
            Failure::Empty(name) => Failure::Empty(name),
            Failure::ParseError(inner) => Failure::ParseError(on_parse(inner)),
        }
    }
}

impl FromEnvErr<Infallible> {
    /// Moves a failure of a load that cannot fail to parse under another
    /// inner type. Only the two input failures can occur there.
    pub fn infallible_into<T>(self) -> (e: FromEnvErr<T>)
        requires
            self@.is_provenance(),
        ensures
            self matches FromEnvErr::EnvError(name, cause) ==> e == FromEnvErr::<
                T,
            >::EnvError(name, cause),
            self matches FromEnvErr::Empty(name) ==> e == FromEnvErr::<T>::Empty(name),
    {
        self.input_failure_into()
    }
}

impl<Inner> FromEnvErr<Inner> {
    /// Moves a failure that lies with the input under another inner type.
    pub fn input_failure_into<New>(self) -> (e: FromEnvErr<New>)
        requires
            self@.is_provenance(),
        ensures
            self matches FromEnvErr::EnvError(name, cause) ==> e == FromEnvErr::<
                New,
            >::EnvError(name, cause),
            self matches FromEnvErr::Empty(name) ==> e == FromEnvErr::<New>::Empty(name),
    {
        match self {
            FromEnvErr::EnvError(s, e) => FromEnvErr::EnvError(s, e),
            FromEnvErr::Empty(s) => FromEnvErr::Empty(s),
            FromEnvErr::ParseError(_) => vstd::pervasive::unreached(),
        }
    }

    /// Converts the inner error through `From`, leaving input failures as
    /// they are.
    pub fn from<Other>(other: FromEnvErr<Other>) -> (e: Self) where Inner: From<Other>
        ensures
            other matches FromEnvErr::EnvError(name, cause) ==> e == FromEnvErr::<
                Inner,
            >::EnvError(name, cause),
            other matches FromEnvErr::Empty(name) ==> e == FromEnvErr::<Inner>::Empty(name),
            other matches FromEnvErr::ParseError(inner) ==> e matches FromEnvErr::ParseError(
                converted,
            ) && call_ensures(Inner::from, (inner,), converted),
    {
        match other {
            FromEnvErr::EnvError(s, e) => FromEnvErr::EnvError(s, e),
            FromEnvErr::Empty(s) => FromEnvErr::Empty(s),
            FromEnvErr::ParseError(e) => FromEnvErr::ParseError(Inner::from(e)),
        }
    }

    /// Applies `f` to the inner error, leaving input failures as they are.
    pub fn map<New, F: FnOnce(Inner) -> New>(self, f: F) -> (e: FromEnvErr<New>)
        requires
            self matches FromEnvErr::ParseError(inner) ==> f.requires((inner,)),
        ensures
            self matches FromEnvErr::EnvError(name, cause) ==> e == FromEnvErr::<
                New,
            >::EnvError(name, cause),
            self matches FromEnvErr::Empty(name) ==> e == FromEnvErr::<New>::Empty(name),
            self matches FromEnvErr::ParseError(inner) ==> e matches FromEnvErr::ParseError(
                mapped,
            ) && f.ensures((inner,), mapped),
    {
        match self {
            FromEnvErr::EnvError(s, e) => FromEnvErr::EnvError(s, e),
            FromEnvErr::Empty(s) => FromEnvErr::Empty(s),
            FromEnvErr::ParseError(e) => FromEnvErr::ParseError(f(e)),
        }
    }

    /// What the failure says: which variable could not be read and why,
    /// which variable is blank, or that the text did not parse, with what
    /// `describe` says of the inner error.
    pub fn message<F: FnOnce(&Inner) -> String>(&self, describe: F) -> (text: String)
        requires
            *self matches FromEnvErr::ParseError(inner) ==> describe.requires((&inner,)),
        ensures
            match *self {
                FromEnvErr::EnvError(name, cause) => text@ == "cannot read variable "@ + name@
                    + ": "@ + cause.text(),
                FromEnvErr::Empty(name) => text@ == "environment variable "@ + name@
                    + " is empty"@,
                FromEnvErr::ParseError(inner) => exists|said: String| #[trigger]
                    describe.ensures((&inner,), said) && text@
                        == "failed to parse environment variable "@ + said@,
            },
    {
        match self {
            FromEnvErr::EnvError(name, cause) => String::from_str("cannot read variable ").concat(
                name.as_str(),
            ).concat(": ").concat(cause.message()),
            FromEnvErr::Empty(name) => String::from_str("environment variable ").concat(
                name.as_str(),
            ).concat(" is empty"),
            FromEnvErr::ParseError(inner) => {
                let said = describe(inner);
                String::from_str("failed to parse environment variable ").concat(said.as_str())
            },
        }
    }

    /// The failure to read `var`, with its cause.
    pub fn env_err(var: &str, e: VarError) -> (err: Self)
        ensures
            err@ == Failure::<Inner>::EnvError(var@, e),
    {
        FromEnvErr::EnvError(var.to_owned(), e)
    }

    /// The failure that `var` is bound to the empty string.
    pub fn empty(var: &str) -> (err: Self)
        ensures
            err@ == Failure::<Inner>::Empty(var@),
    {
        FromEnvErr::Empty(var.to_owned())
    }

    /// The failure to parse, with the type's own error.
    pub fn parse_error(err: Inner) -> (e: Self)
        ensures
            e == FromEnvErr::ParseError(err),
    {
        FromEnvErr::ParseError(err)
    }
}

/// The bindings of a table of variables: each bound name with its text, or
/// with `None` where it is bound to data that is not text.
pub type Bindings = Map<Seq<char>, Option<Seq<char>>>;

/// What reading `name` from `bindings` gives.
pub open spec fn lookup(bindings: Bindings, name: Seq<char>) -> Result<Seq<char>, VarError> {
    if !bindings.contains_key(name) {
        Err(VarError::NotPresent)
    } else {
        match bindings[name] {
            Some(text) => Ok(text),
            None => Err(VarError::NotUnicode),
        }
    }
}

/// A table of named string variables: the input that every load reads.
pub struct Env {
    vars: StringHashMap<Option<String>>,
}

impl View for Env {
    type V = Bindings;

    closed spec fn view(&self) -> Bindings {
        Map::new(
            |name: Seq<char>| self.vars@.contains_key(name),
            |name: Seq<char>|
                match self.vars@[name] {
                    Some(text) => Some(text@),
                    None => None,
                },
        )
    }
}

impl Env {
    /// A table with no variable bound.
    pub fn new() -> (env: Env)
        ensures
            env@ == Bindings::empty(),
    {
        let env = Env { vars: StringHashMap::new() };
        assert(env@ =~= Bindings::empty());
        env
    }

    /// Binds `name` to the text `value`, replacing an earlier binding.
    pub fn set(&mut self, name: &str, value: &str)
        ensures
            final(self)@ == old(self)@.insert(name@, Some(value@)),
    {
        self.vars.insert(name.to_owned(), Some(value.to_owned()));
        assert(self@ =~= old(self)@.insert(name@, Some(value@)));
    }

    /// Binds `name` to data that is not text, replacing an earlier binding.
    pub fn set_not_unicode(&mut self, name: &str)
        ensures
            final(self)@ == old(self)@.insert(name@, None),
    {
        self.vars.insert(name.to_owned(), None);
        assert(self@ =~= old(self)@.insert(name@, None));
    }

    /// Removes the binding of `name`, if there is one.
    pub fn remove(&mut self, name: &str)
        ensures
            final(self)@ == old(self)@.remove(name@),
    {
        self.vars.remove(name);
        assert(self@ =~= old(self)@.remove(name@));
    }

    /// Whether `name` is bound at all, to text or not.
    pub fn is_set(&self, name: &str) -> (set: bool)
        ensures
            set == self@.contains_key(name@),
    {
        self.vars.contains_key(name)
    }

    /// Reads the variable `name`.
    pub fn var(&self, name: &str) -> (found: Result<String, VarError>)
        ensures
            match found {
                Ok(text) => lookup(self@, name@) == Ok::<Seq<char>, VarError>(text@),
                Err(e) => lookup(self@, name@) == Err::<Seq<char>, VarError>(e),
            },
    {
        match self.vars.get(name) {
            None => Err(VarError::NotPresent),
            Some(None) => Err(VarError::NotUnicode),
            Some(Some(text)) => Ok(text.clone()),
        }
    }
}


/// A loaded value or the mathematical content of the failure.
pub open spec fn outcome<T, E>(r: Result<T, FromEnvErr<E>>) -> Result<T, Failure<E>> {
    match r {
        Ok(v) => Ok(v),
        Err(e) => Err(e@),
    }
}

/// What a load from one variable gives when it reads the variable, refuses a
/// missing or blank one, and otherwise hands the text to the type's parser:
/// `parsed` holds the parser's result on that text.
pub open spec fn present_or_fails<T, E>(
    found: Result<Seq<char>, VarError>,
    name: Seq<char>,
    parsed: spec_fn(Seq<char>, Result<T, E>) -> bool,
    r: Result<T, FromEnvErr<E>>,
) -> bool {
    match found {
        Err(cause) => outcome(r) == Err::<T, Failure<E>>(Failure::EnvError(name, cause)),
        Ok(text) => if text.len() == 0 {
            outcome(r) == Err::<T, Failure<E>>(Failure::Empty(name))
        } else {
            match r {
                Ok(v) => parsed(text, Ok(v)),
                Err(FromEnvErr::ParseError(e)) => parsed(text, Err(e)),
                Err(_) => false,
            }
        },
    }
}

/// Whether a variable was found missing, unreadable or blank.
pub open spec fn is_absent(found: Result<Seq<char>, VarError>) -> bool {
    match found {
        Err(_) => true,
        Ok(text) => text.len() == 0,
    }
}

/// Reads `env_var` and parses its text with `parse`, if it is bound and not
/// blank.
pub fn parse_env_if_present<T, E, F: FnOnce(&str) -> Result<T, E>>(
    env: &Env,
    env_var: &str,
    parse: F,
) -> (r: Result<T, FromEnvErr<E>>)
    requires
        forall|s: &str| s@.len() > 0 ==> #[trigger] parse.requires((s,)),
    ensures
        present_or_fails(
            lookup(env@, env_var@),
            env_var@,
            |text: Seq<char>, p: Result<T, E>|
                exists|s: &str| s@ == text && #[trigger] parse.ensures((s,), p),
            r,
        ),
{
    match env.var(env_var) {
        Err(cause) => Err(FromEnvErr::env_err(env_var, cause)),
        Ok(s) => {
            if s.as_str().is_empty() {
                Err(FromEnvErr::empty(env_var))
            } else {
                match parse(s.as_str()) {
                    Ok(v) => Ok(v),
                    Err(e) => Err(FromEnvErr::ParseError(e)),
                }
            }
        },
    }
}

/// Puts `default` in the place of a failure that lies with the input. A
/// value stays, and so does a failure to parse.
pub fn or_value<T, E>(loaded: Result<T, FromEnvErr<E>>, default: T) -> (r: Result<
    T,
    FromEnvErr<E>,
>)
    ensures
        r == spec_or_value(loaded, default),
{
    match loaded {
        Ok(v) => Ok(v),
        Err(FromEnvErr::ParseError(e)) => Err(FromEnvErr::ParseError(e)),
        Err(_) => Ok(default),
    }
}

/// What [`or_value`] returns.
pub open spec fn spec_or_value<T, E>(loaded: Result<T, FromEnvErr<E>>, default: T) -> Result<
    T,
    FromEnvErr<E>,
> {
    match loaded {
        Ok(v) => Ok(v),
        Err(FromEnvErr::ParseError(e)) => Err(FromEnvErr::ParseError(e)),
        Err(_) => Ok(default),
    }
}

/// The fallback takes the default exactly where the variable is missing,
/// unreadable or blank: for a type that loads as [`present_or_fails`] says,
/// the load with a default gives the default there, and what the plain
/// load gives everywhere else.
pub proof fn lemma_or_value_falls_back<T, E>(
    found: Result<Seq<char>, VarError>,
    name: Seq<char>,
    parsed: spec_fn(Seq<char>, Result<T, E>) -> bool,
    loaded: Result<T, FromEnvErr<E>>,
    default: T,
)
    requires
        present_or_fails(found, name, parsed, loaded),
    ensures
        is_absent(found) ==> spec_or_value(loaded, default) == Ok::<T, FromEnvErr<E>>(default),
        !is_absent(found) ==> spec_or_value(loaded, default) == loaded,
{
}

/// A value that is loaded from one variable.
pub trait FromEnvVar: Sized {
    /// Why the variable's text may fail to parse.
    type Error;

    /// Whether `r` is what this type loads from the variable `env_var`
    /// when reading it gives `found`.
    spec fn loads(
        found: Result<Seq<char>, VarError>,
        env_var: Seq<char>,
        r: Result<Self, FromEnvErr<Self::Error>>,
    ) -> bool;

    /// Loads the value from the variable `env_var`.
    fn from_env_var(env: &Env, env_var: &str) -> (r: Result<Self, FromEnvErr<Self::Error>>)
        ensures
            Self::loads(lookup(env@, env_var@), env_var@, r),
    ;

    /// Loads the value from the variable `env_var`, or takes `default` where
    /// the load fails on the input. A failure to parse stays a failure.
    fn from_env_var_or(env: &Env, env_var: &str, default: Self) -> (r: Result<
        Self,
        FromEnvErr<Self::Error>,
    >)
        ensures
            exists|loaded: Result<Self, FromEnvErr<Self::Error>>| #[trigger]
                Self::loads(lookup(env@, env_var@), env_var@, loaded) && r == spec_or_value(
                    loaded,
                    default,
                ),
    {
        or_value(Self::from_env_var(env, env_var), default)
    }

    /// Loads the value from the variable `env_var`, or calls `default` where
    /// the load fails on the input. A failure to parse stays a failure.
    fn from_env_var_or_else<F: FnOnce() -> Self>(env: &Env, env_var: &str, default: F) -> (r:
        Result<Self, FromEnvErr<Self::Error>>)
        requires
            default.requires(()),
        ensures
            exists|loaded: Result<Self, FromEnvErr<Self::Error>>| #[trigger]
                Self::loads(lookup(env@, env_var@), env_var@, loaded) && match loaded {
                    Ok(v) => r == Ok::<Self, FromEnvErr<Self::Error>>(v),
                    Err(FromEnvErr::ParseError(e)) => r == Err::<Self, FromEnvErr<Self::Error>>(
                        FromEnvErr::ParseError(e),
                    ),
                    Err(_) => r matches Ok(d) && default.ensures((), d),
                },
    {
        match Self::from_env_var(env, env_var) {
            Ok(v) => Ok(v),
            Err(FromEnvErr::ParseError(e)) => Err(FromEnvErr::ParseError(e)),
            Err(_) => Ok(default()),
        }
    }

    /// Loads the value from the variable `env_var`, or takes the type's
    /// default where the load fails on the input. A failure to parse stays a
    /// failure.
    fn from_env_var_or_default(env: &Env, env_var: &str) -> (r: Result<
        Self,
        FromEnvErr<Self::Error>,
    >) where Self: Default
        ensures
            exists|loaded: Result<Self, FromEnvErr<Self::Error>>| #[trigger]
                Self::loads(lookup(env@, env_var@), env_var@, loaded) && match loaded {
                    Ok(v) => r == Ok::<Self, FromEnvErr<Self::Error>>(v),
                    Err(FromEnvErr::ParseError(e)) => r == Err::<Self, FromEnvErr<Self::Error>>(
                        FromEnvErr::ParseError(e),
                    ),
                    Err(_) => r matches Ok(d) && call_ensures(Self::default, (), d),
                },
    {
        Self::from_env_var_or_else(env, env_var, Self::default)
    }
}

impl FromEnvVar for u8 {
    type Error = ParseIntError;

    open spec fn loads(
        found: Result<Seq<char>, VarError>,
        env_var: Seq<char>,
        r: Result<Self, FromEnvErr<ParseIntError>>,
    ) -> bool {
        present_or_fails(
            found,
            env_var,
            |text: Seq<char>, p: Result<u8, ParseIntError>|
                parse_decimal(text, 0, u8::MAX as int) == match p {
                    Ok(v) => Ok::<int, ParseIntError>(v as int),
                    Err(e) => Err::<int, ParseIntError>(e),
                },
            r,
        )
    }

    fn from_env_var(env: &Env, env_var: &str) -> (r: Result<Self, FromEnvErr<ParseIntError>>) {
        parse_env_if_present(env, env_var, parse_u8)
    }
}

impl FromEnvVar for u16 {
    type Error = ParseIntError;

    open spec fn loads(
        found: Result<Seq<char>, VarError>,
        env_var: Seq<char>,
        r: Result<Self, FromEnvErr<ParseIntError>>,
    ) -> bool {
        present_or_fails(
            found,
            env_var,
            |text: Seq<char>, p: Result<u16, ParseIntError>|
                parse_decimal(text, 0, u16::MAX as int) == match p {
                    Ok(v) => Ok::<int, ParseIntError>(v as int),
                    Err(e) => Err::<int, ParseIntError>(e),
                },
            r,
        )
    }

    fn from_env_var(env: &Env, env_var: &str) -> (r: Result<Self, FromEnvErr<ParseIntError>>) {
        parse_env_if_present(env, env_var, parse_u16)
    }
}

impl FromEnvVar for u32 {
    type Error = ParseIntError;

    open spec fn loads(
        found: Result<Seq<char>, VarError>,
        env_var: Seq<char>,
        r: Result<Self, FromEnvErr<ParseIntError>>,
    ) -> bool {
        present_or_fails(
            found,
            env_var,
            |text: Seq<char>, p: Result<u32, ParseIntError>|
                parse_decimal(text, 0, u32::MAX as int) == match p {
                    Ok(v) => Ok::<int, ParseIntError>(v as int),
                    Err(e) => Err::<int, ParseIntError>(e),
                },
            r,
        )
    }

    fn from_env_var(env: &Env, env_var: &str) -> (r: Result<Self, FromEnvErr<ParseIntError>>) {
        parse_env_if_present(env, env_var, parse_u32)
    }
}

impl FromEnvVar for u64 {
    type Error = ParseIntError;

    open spec fn loads(
        found: Result<Seq<char>, VarError>,
        env_var: Seq<char>,
        r: Result<Self, FromEnvErr<ParseIntError>>,
    ) -> bool {
        present_or_fails(
            found,
            env_var,
            |text: Seq<char>, p: Result<u64, ParseIntError>|
                parse_decimal(text, 0, u64::MAX as int) == match p {
                    Ok(v) => Ok::<int, ParseIntError>(v as int),
                    Err(e) => Err::<int, ParseIntError>(e),
                },
            r,
        )
    }

    fn from_env_var(env: &Env, env_var: &str) -> (r: Result<Self, FromEnvErr<ParseIntError>>) {
        parse_env_if_present(env, env_var, parse_u64)
    }
}

impl FromEnvVar for u128 {
    type Error = ParseIntError;

    open spec fn loads(
        found: Result<Seq<char>, VarError>,
        env_var: Seq<char>,
        r: Result<Self, FromEnvErr<ParseIntError>>,
    ) -> bool {
        present_or_fails(
            found,
            env_var,
            |text: Seq<char>, p: Result<u128, ParseIntError>|
                parse_decimal(text, 0, u128::MAX as int) == match p {
                    Ok(v) => Ok::<int, ParseIntError>(v as int),
                    Err(e) => Err::<int, ParseIntError>(e),
                },
            r,
        )
    }

    fn from_env_var(env: &Env, env_var: &str) -> (r: Result<Self, FromEnvErr<ParseIntError>>) {
        parse_env_if_present(env, env_var, parse_u128)
    }
}

impl FromEnvVar for usize {
    type Error = ParseIntError;

    open spec fn loads(
        found: Result<Seq<char>, VarError>,
        env_var: Seq<char>,
        r: Result<Self, FromEnvErr<ParseIntError>>,
    ) -> bool {
        present_or_fails(
            found,
            env_var,
            |text: Seq<char>, p: Result<usize, ParseIntError>|
                parse_decimal(text, 0, usize::MAX as int) == match p {
                    Ok(v) => Ok::<int, ParseIntError>(v as int),
                    Err(e) => Err::<int, ParseIntError>(e),
                },
            r,
        )
    }

    fn from_env_var(env: &Env, env_var: &str) -> (r: Result<Self, FromEnvErr<ParseIntError>>) {
        parse_env_if_present(env, env_var, parse_usize)
    }
}

impl FromEnvVar for i8 {
    type Error = ParseIntError;

    open spec fn loads(
        found: Result<Seq<char>, VarError>,
        env_var: Seq<char>,
        r: Result<Self, FromEnvErr<ParseIntError>>,
    ) -> bool {
        present_or_fails(
            found,
            env_var,
            |text: Seq<char>, p: Result<i8, ParseIntError>|
                parse_decimal(text, i8::MIN as int, i8::MAX as int) == match p {
                    Ok(v) => Ok::<int, ParseIntError>(v as int),
                    Err(e) => Err::<int, ParseIntError>(e),
                },
            r,
        )
    }

    fn from_env_var(env: &Env, env_var: &str) -> (r: Result<Self, FromEnvErr<ParseIntError>>) {
        parse_env_if_present(env, env_var, parse_i8)
    }
}

impl FromEnvVar for i16 {
    type Error = ParseIntError;

    open spec fn loads(
        found: Result<Seq<char>, VarError>,
        env_var: Seq<char>,
        r: Result<Self, FromEnvErr<ParseIntError>>,
    ) -> bool {
        present_or_fails(
            found,
            env_var,
            |text: Seq<char>, p: Result<i16, ParseIntError>|
                parse_decimal(text, i16::MIN as int, i16::MAX as int) == match p {
                    Ok(v) => Ok::<int, ParseIntError>(v as int),
                    Err(e) => Err::<int, ParseIntError>(e),
                },
            r,
        )
    }

    fn from_env_var(env: &Env, env_var: &str) -> (r: Result<Self, FromEnvErr<ParseIntError>>) {
        parse_env_if_present(env, env_var, parse_i16)
    }
}

impl FromEnvVar for i32 {
    type Error = ParseIntError;

    open spec fn loads(
        found: Result<Seq<char>, VarError>,
        env_var: Seq<char>,
        r: Result<Self, FromEnvErr<ParseIntError>>,
    ) -> bool {
        present_or_fails(
            found,
            env_var,
            |text: Seq<char>, p: Result<i32, ParseIntError>|
                parse_decimal(text, i32::MIN as int, i32::MAX as int) == match p {
                    Ok(v) => Ok::<int, ParseIntError>(v as int),
                    Err(e) => Err::<int, ParseIntError>(e),
                },
            r,
        )
    }

    fn from_env_var(env: &Env, env_var: &str) -> (r: Result<Self, FromEnvErr<ParseIntError>>) {
        parse_env_if_present(env, env_var, parse_i32)
    }
}

impl FromEnvVar for i64 {
    type Error = ParseIntError;

    open spec fn loads(
        found: Result<Seq<char>, VarError>,
        env_var: Seq<char>,
        r: Result<Self, FromEnvErr<ParseIntError>>,
    ) -> bool {
        present_or_fails(
            found,
            env_var,
            |text: Seq<char>, p: Result<i64, ParseIntError>|
                parse_decimal(text, i64::MIN as int, i64::MAX as int) == match p {
                    Ok(v) => Ok::<int, ParseIntError>(v as int),
                    Err(e) => Err::<int, ParseIntError>(e),
                },
            r,
        )
    }

    fn from_env_var(env: &Env, env_var: &str) -> (r: Result<Self, FromEnvErr<ParseIntError>>) {
        parse_env_if_present(env, env_var, parse_i64)
    }
}

impl FromEnvVar for i128 {
    type Error = ParseIntError;

    open spec fn loads(
        found: Result<Seq<char>, VarError>,
        env_var: Seq<char>,
        r: Result<Self, FromEnvErr<ParseIntError>>,
    ) -> bool {
        present_or_fails(
            found,
            env_var,
            |text: Seq<char>, p: Result<i128, ParseIntError>|
                parse_decimal(text, i128::MIN as int, i128::MAX as int) == match p {
                    Ok(v) => Ok::<int, ParseIntError>(v as int),
                    Err(e) => Err::<int, ParseIntError>(e),
                },
            r,
        )
    }

    fn from_env_var(env: &Env, env_var: &str) -> (r: Result<Self, FromEnvErr<ParseIntError>>) {
        parse_env_if_present(env, env_var, parse_i128)
    }
}

impl FromEnvVar for isize {
    type Error = ParseIntError;

    open spec fn loads(
        found: Result<Seq<char>, VarError>,
        env_var: Seq<char>,
        r: Result<Self, FromEnvErr<ParseIntError>>,
    ) -> bool {
        present_or_fails(
            found,
            env_var,
            |text: Seq<char>, p: Result<isize, ParseIntError>|
                parse_decimal(text, isize::MIN as int, isize::MAX as int) == match p {
                    Ok(v) => Ok::<int, ParseIntError>(v as int),
                    Err(e) => Err::<int, ParseIntError>(e),
                },
            r,
        )
    }

    fn from_env_var(env: &Env, env_var: &str) -> (r: Result<Self, FromEnvErr<ParseIntError>>) {
        parse_env_if_present(env, env_var, parse_isize)
    }
}

impl FromEnvVar for String {
    type Error = Infallible;

    open spec fn loads(
        found: Result<Seq<char>, VarError>,
        env_var: Seq<char>,
        r: Result<Self, FromEnvErr<Infallible>>,
    ) -> bool {
        present_or_fails(
            found,
            env_var,
            |text: Seq<char>, p: Result<String, Infallible>| p matches Ok(s) && s@ == text,
            r,
        )
    }

    fn from_env_var(env: &Env, env_var: &str) -> (r: Result<Self, FromEnvErr<Infallible>>)
        ensures
            r matches Err(e) ==> e@.is_provenance(),
    {
        match env.var(env_var) {
            Err(cause) => Err(FromEnvErr::env_err(env_var, cause)),
            Ok(s) => if s.as_str().is_empty() {
                Err(FromEnvErr::empty(env_var))
            } else {
                Ok(s)
            },
        }
    }
}

/// Makes `std::str::ParseBoolError` known as the error type of a flag's
/// load. Nothing is claimed of it: every text that is not blank parses as a
/// set flag, so no value of this type is ever made here.
#[verifier::external_type_specification]
#[verifier::external_body]
pub struct ExParseBoolError(std::str::ParseBoolError);

impl FromEnvVar for bool {
    type Error = std::str::ParseBoolError;

    open spec fn loads(
        found: Result<Seq<char>, VarError>,
        env_var: Seq<char>,
        r: Result<Self, FromEnvErr<std::str::ParseBoolError>>,
    ) -> bool {
        present_or_fails(
            found,
            env_var,
            |text: Seq<char>, p: Result<bool, std::str::ParseBoolError>| p == Ok::<
                bool,
                std::str::ParseBoolError,
            >(true),
            r,
        )
    }

    fn from_env_var(env: &Env, env_var: &str) -> (r: Result<
        Self,
        FromEnvErr<std::str::ParseBoolError>,
    >)
        ensures
            r matches Err(e) ==> e@.is_provenance(),
    {
        match env.var(env_var) {
            Err(cause) => Err(FromEnvErr::env_err(env_var, cause)),
            Ok(s) => if s.as_str().is_empty() {
                Err(FromEnvErr::empty(env_var))
            } else {
                Ok(true)
            },
        }
    }
}

/// A span of time in whole milliseconds.
#[derive(Debug, Clone, Copy, PartialEq, Eq, Structural)]
pub struct Millis(pub u64);

impl FromEnvVar for Millis {
    type Error = ParseIntError;

    open spec fn loads(
        found: Result<Seq<char>, VarError>,
        env_var: Seq<char>,
        r: Result<Self, FromEnvErr<ParseIntError>>,
    ) -> bool {
        u64::loads(
            found,
            env_var,
            match r {
                Ok(ms) => Ok(ms.0),
                Err(e) => Err(e),
            },
        )
    }

    fn from_env_var(env: &Env, env_var: &str) -> (r: Result<Self, FromEnvErr<ParseIntError>>) {
        match u64::from_env_var(env, env_var) {
            Ok(ms) => Ok(Millis(ms)),
            Err(e) => Err(e),
        }
    }
}

impl<T: FromEnvVar> FromEnvVar for Option<T> {
    type Error = T::Error;

    /// A missing, unreadable or blank variable loads as `None`; any other
    /// loads as `T` does.
    open spec fn loads(
        found: Result<Seq<char>, VarError>,
        env_var: Seq<char>,
        r: Result<Self, FromEnvErr<T::Error>>,
    ) -> bool {
        if is_absent(found) {
            r == Ok::<Self, FromEnvErr<T::Error>>(None)
        } else {
            match r {
                Ok(Some(v)) => T::loads(found, env_var, Ok(v)),
                Ok(None) => false,
                Err(e) => T::loads(found, env_var, Err(e)),
            }
        }
    }

    fn from_env_var(env: &Env, env_var: &str) -> (r: Result<Self, FromEnvErr<T::Error>>) {
        match env.var(env_var) {
            Ok(s) => if s.as_str().is_empty() {
                Ok(None)
            } else {
                match T::from_env_var(env, env_var) {
                    Ok(v) => Ok(Some(v)),
                    Err(e) => Err(e),
                }
            },
            Err(_) => Ok(None),
        }
    }
}

/// The loaded value taken out of its box.
pub open spec fn unboxed<T, E>(r: Result<Box<T>, E>) -> Result<T, E> {
    match r {
        Ok(v) => Ok(*v),
        Err(e) => Err(e),
    }
}

/// The loaded value taken out of its shared handle.
pub open spec fn unshared<T, E>(r: Result<std::sync::Arc<T>, E>) -> Result<T, E> {
    match r {
        Ok(v) => Ok(*v),
        Err(e) => Err(e),
    }
}

impl<T: FromEnvVar> FromEnvVar for Box<T> {
    type Error = T::Error;

    open spec fn loads(
        found: Result<Seq<char>, VarError>,
        env_var: Seq<char>,
        r: Result<Self, FromEnvErr<T::Error>>,
    ) -> bool {
        T::loads(
            found,
            env_var,
            unboxed(r),
        )
    }

    fn from_env_var(env: &Env, env_var: &str) -> (r: Result<Self, FromEnvErr<T::Error>>) {
        match T::from_env_var(env, env_var) {
            Ok(v) => Ok(Box::new(v)),
            Err(e) => Err(e),
        }
    }
}

impl<T: FromEnvVar> FromEnvVar for std::sync::Arc<T> {
    type Error = T::Error;

    open spec fn loads(
        found: Result<Seq<char>, VarError>,
        env_var: Seq<char>,
        r: Result<Self, FromEnvErr<T::Error>>,
    ) -> bool {
        T::loads(
            found,
            env_var,
            unshared(r),
        )
    }

    fn from_env_var(env: &Env, env_var: &str) -> (r: Result<Self, FromEnvErr<T::Error>>) {
        match T::from_env_var(env, env_var) {
            Ok(v) => Ok(std::sync::Arc::new(v)),
            Err(e) => Err(e),
        }
    }
}

impl<T, U> FromEnvVar for std::borrow::Cow<'static, U> where
    T: FromEnvVar,
    U: std::borrow::ToOwned<Owned = T> + ?Sized + 'static,
 {
    type Error = T::Error;

    open spec fn loads(
        found: Result<Seq<char>, VarError>,
        env_var: Seq<char>,
        r: Result<Self, FromEnvErr<T::Error>>,
    ) -> bool {
        match r {
            Ok(std::borrow::Cow::Owned(v)) => T::loads(found, env_var, Ok(v)),
            Ok(std::borrow::Cow::Borrowed(_)) => false,
            Err(e) => T::loads(found, env_var, Err(e)),
        }
    }

    fn from_env_var(env: &Env, env_var: &str) -> (r: Result<Self, FromEnvErr<T::Error>>) {
        match T::from_env_var(env, env_var) {
            Ok(v) => Ok(std::borrow::Cow::Owned(v)),
            Err(e) => Err(e),
        }
    }
}

/// The length of the part of `s` before the first `sep`, or of all of `s`
/// where it holds none.
pub open spec fn piece_len(s: Seq<char>, sep: char) -> nat
    decreases s.len(),
{
    if s.len() == 0 || s[0] == sep {
        0
    } else {
        1 + piece_len(s.drop_first(), sep)
    }
}

/// The parts of `s` between the occurrences of `sep`, in order. Two
/// separators in a row, or one at either end, enclose an empty part.
pub open spec fn split(s: Seq<char>, sep: char) -> Seq<Seq<char>>
    decreases s.len(),
{
    let n = piece_len(s, sep) as int;
    if n >= s.len() {
        seq![s]
    } else {
        seq![s.take(n)] + split(s.skip(n + 1), sep)
    }
}

/// The texts of a list of strings.
pub open spec fn texts(items: Seq<String>) -> Seq<Seq<char>> {
    items.map_values(|item: String| item@)
}

/// Whether `item` is what `From<String>` makes of a string with the text
/// `piece`.
pub open spec fn converts<T: From<String>>(piece: Seq<char>, item: T) -> bool {
    exists|part: String| part@ == piece && #[trigger] call_ensures(T::from, (part,), item)
}

/// The length of the first part of a text is the place of its first
/// separator, or the length of the text where it holds none.
pub proof fn lemma_piece_len(s: Seq<char>, sep: char, n: int)
    requires
        0 <= n <= s.len(),
        forall|k: int| 0 <= k < n ==> s[k] != sep,
        n < s.len() ==> s[n] == sep,
    ensures
        piece_len(s, sep) == n,
    decreases n,
{
    if n > 0 {
        let rest = s.drop_first();
        assert forall|k: int| 0 <= k < n - 1 implies rest[k] != sep by {
            assert(rest[k] == s[k + 1]);
        }
        lemma_piece_len(rest, sep, n - 1);
    }
}

/// Cuts a text at every comma.
pub fn split_commas(s: &str) -> (parts: Vec<String>)
    ensures
        texts(parts@) == split(s@, ','),
{
    let ghost text = s@;
    let len: usize = s.unicode_len();
    let mut parts: Vec<String> = Vec::new();
    let mut chars = s.chars();
    let mut start: usize = 0;
    let mut at: usize = 0;
    assert(text.skip(0) =~= text);
    assert(texts(parts@) + split(text, ',') =~= split(text, ','));
    loop
        invariant
            chars.obeys_prophetic_iter_laws(),
            chars.decrease() is Some,
            text == s@,
            len == text.len(),
            start <= at <= len,
            chars.remaining() == text.skip(at as int),
            forall|k: int| start <= k < at ==> text[k] != ',',
            texts(parts@) + split(text.skip(start as int), ',') == split(text, ','),
        decreases chars.decrease()->0,
    {
        let ghost rest = text.skip(start as int);
        let ghost done = parts@;
        match chars.next() {
            None => {
                assert(at == len);
                let piece = s.substring_char(start, at).to_owned();
                parts.push(piece);
                proof {
                    assert forall|k: int| 0 <= k < rest.len() implies rest[k] != ',' by {
                        assert(rest[k] == text[start + k]);
                    }
                    lemma_piece_len(rest, ',', rest.len() as int);
                    assert(piece@ =~= rest);
                    assert(texts(parts@) =~= texts(done) + seq![rest]);
                }
                return parts;
            },
            Some(c) => {
                assert(c == text[at as int]);
                assert(chars.remaining() =~= text.skip(at + 1));
                if c == ',' {
                    let piece = s.substring_char(start, at).to_owned();
                    parts.push(piece);
                    proof {
                        let n = at - start;
                        assert forall|k: int| 0 <= k < n implies rest[k] != ',' by {
                            assert(rest[k] == text[start + k]);
                        }
                        assert(rest[n] == text[at as int]);
                        lemma_piece_len(rest, ',', n);
                        assert(piece@ =~= rest.take(n));
                        assert(rest.skip(n + 1) =~= text.skip(at + 1));
                        assert(texts(parts@) =~= texts(done) + seq![rest.take(n)]);
                        assert(texts(parts@) + split(text.skip(at + 1), ',') =~= texts(done)
                            + split(rest, ','));
                    }
                    start = at + 1;
                }
                at = at + 1;
            },
        }
    }
}

impl<T: From<String>> FromEnvVar for Vec<T> {
    type Error = Infallible;

    /// The variable's text is cut at every comma and each part converted.
    open spec fn loads(
        found: Result<Seq<char>, VarError>,
        env_var: Seq<char>,
        r: Result<Self, FromEnvErr<Infallible>>,
    ) -> bool {
        present_or_fails(
            found,
            env_var,
            |text: Seq<char>, p: Result<Vec<T>, Infallible>|
                p matches Ok(items) && items.len() == split(text, ',').len() && forall|i: int|
                    0 <= i < items.len() ==> #[trigger] converts::<T>(
                        split(text, ',')[i],
                        items[i],
                    ),
            r,
        )
    }

    fn from_env_var(env: &Env, env_var: &str) -> (r: Result<Self, FromEnvErr<Infallible>>) {
        match env.var(env_var) {
            Err(cause) => Err(FromEnvErr::env_err(env_var, cause)),
            Ok(s) => if s.as_str().is_empty() {
                Err(FromEnvErr::empty(env_var))
            } else {
                let parts: Vec<String> = split_commas(s.as_str());
                let ghost pieces = split(s@, ',');
                let mut items: Vec<T> = Vec::new();
                let mut at: usize = 0;
                while at < parts.len()
                    invariant
                        texts(parts@) == pieces,
                        at <= parts.len(),
                        items.len() == at,
                        forall|i: int|
                            0 <= i < items.len() ==> #[trigger] converts::<T>(
                                pieces[i],
                                items[i],
                            ),
                    decreases parts.len() - at,
                {
                    let ghost done = items@;
                    let part = parts[at].clone();
                    assert(part@ == pieces[at as int]) by {
                        assert(texts(parts@)[at as int] == parts[at as int]@);
                    }
                    let item = T::from(part);
                    items.push(item);
                    assert forall|i: int| 0 <= i < items.len() implies #[trigger] converts::<T>(
                        pieces[i],
                        items[i],
                    ) by {
                        if i < done.len() {
                            assert(converts::<T>(pieces[i], done[i]));
                        } else {
                            assert(call_ensures(T::from, (part,), items[i]));
                        }
                    }
                    at = at + 1;
                }
                assert(texts(parts@).len() == parts.len());
                Ok(items)
            },
        }
    }
}

impl ItemInfo {
    /// Whether the descriptor has a name and says what the variable is for.
    pub open spec fn is_described(self) -> bool {
        self.var.len() > 0 && self.description.len() > 0
    }
}

/// The mathematical content of a list of descriptors.
pub open spec fn infos(items: Seq<EnvItemInfo>) -> Seq<ItemInfo> {
    items.map_values(|item: EnvItemInfo| item@)
}

/// Whether an input is required and not bound at all.
pub open spec fn is_missing(info: ItemInfo, bindings: Bindings) -> bool {
    !info.optional && !bindings.contains_key(info.var)
}

/// The descriptors of `items` that are required and not bound, in order.
pub open spec fn missing(items: Seq<ItemInfo>, bindings: Bindings) -> Seq<ItemInfo> {
    items.filter(|info: ItemInfo| is_missing(info, bindings))
}

/// Whether two tables give the same to whoever reads the variables that
/// `items` names.
pub open spec fn agree_on(first: Bindings, second: Bindings, items: Seq<ItemInfo>) -> bool {
    forall|i: int|
        0 <= i < items.len() ==> lookup(first, (#[trigger] items[i]).var) == lookup(
            second,
            items[i].var,
        )
}

/// Lists the descriptors of `items` that are required and not bound in
/// `env`; `Ok` when there is none. Only presence is looked at: a variable
/// that is bound counts as present whatever it holds.
pub fn missing_items(env: &Env, items: &Vec<EnvItemInfo>) -> (r: Result<(), Vec<EnvItemInfo>>)
    ensures
        match r {
            Ok(()) => missing(infos(items@), env@).len() == 0,
            Err(absent) => absent.len() > 0 && infos(absent@) == missing(infos(items@), env@),
        },
{
    let ghost pred = |info: ItemInfo| is_missing(info, env@);
    let mut absent: Vec<EnvItemInfo> = Vec::new();
    let mut at: usize = 0;
    proof {
        reveal(Seq::filter);
        assert(infos(items@).take(0) =~= Seq::<ItemInfo>::empty());
        assert(infos(absent@) =~= Seq::<ItemInfo>::empty());
    }
    while at < items.len()
        invariant
            at <= items.len(),
            pred == |info: ItemInfo| is_missing(info, env@),
            infos(absent@) == infos(items@).take(at as int).filter(pred),
        decreases items.len() - at,
    {
        let item = items[at];
        let ghost before = infos(items@).take(at as int);
        let ghost after = infos(items@).take(at + 1);
        proof {
            reveal(Seq::filter);
            assert(after.drop_last() =~= before);
            assert(after.last() == item@);
        }
        if !item.optional && !env.is_set(item.var) {
            let ghost old_absent = absent@;
            absent.push(item);
            assert(infos(absent@) =~= infos(old_absent).push(item@));
        }
        at = at + 1;
    }
    assert(infos(items@).take(at as int) =~= infos(items@));
    if absent.len() == 0 {
        Ok(())
    } else {
        Err(absent)
    }
}

/// A value that is put together from several loads, and that can list
/// every variable those loads may read.
pub trait FromEnv: Sized {
    /// Why the load may fail to parse: which part failed, and how.
    type Error;

    /// The inventory: the descriptor of every variable that a load may
    /// read, those of nested values included, in the order of the parts.
    spec fn spec_inventory() -> Seq<ItemInfo>;

    /// Whether `r` is what this type loads from the bindings `bindings`.
    spec fn loads(bindings: Bindings, r: Result<Self, FromEnvErr<Self::Error>>) -> bool;

    /// A load reads no variable that the inventory does not name: what is
    /// loaded from one table is loaded from every table that binds the
    /// inventory's names alike.
    proof fn lemma_loads_reads_inventory(
        first: Bindings,
        second: Bindings,
        r: Result<Self, FromEnvErr<Self::Error>>,
    )
        requires
            agree_on(first, second, Self::spec_inventory()),
            Self::loads(first, r),
        ensures
            Self::loads(second, r),
    ;

    /// Every descriptor of the inventory has a name and a description.
    proof fn lemma_inventory_is_described()
        ensures
            forall|i: int|
                0 <= i < Self::spec_inventory().len() ==> (#[trigger] Self::spec_inventory()[
                    i
                ]).is_described(),
    ;

    /// The inventory of this type.
    fn inventory() -> (items: Vec<EnvItemInfo>)
        ensures
            infos(items@) == Self::spec_inventory(),
    ;

    /// Lists the inputs of the inventory that are required and not bound;
    /// `Ok` when there is none. Nothing is parsed.
    fn check_inventory(env: &Env) -> (r: Result<(), Vec<EnvItemInfo>>)
        ensures
            match r {
                Ok(()) => missing(Self::spec_inventory(), env@).len() == 0,
                Err(absent) => absent.len() > 0 && infos(absent@) == missing(
                    Self::spec_inventory(),
                    env@,
                ),
            },
    {
        let items = Self::inventory();
        missing_items(env, &items)
    }

    /// Loads the value.
    fn from_env(env: &Env) -> (r: Result<Self, FromEnvErr<Self::Error>>)
        ensures
            Self::loads(env@, r),
    ;
}

impl<T: FromEnv> FromEnv for Option<T> {
    type Error = T::Error;

    open spec fn spec_inventory() -> Seq<ItemInfo> {
        T::spec_inventory()
    }

    /// Where `T` fails on its input the value is `None`; a failure to parse
    /// stays a failure.
    open spec fn loads(bindings: Bindings, r: Result<Self, FromEnvErr<T::Error>>) -> bool {
        match r {
            Ok(Some(v)) => T::loads(bindings, Ok(v)),
            Ok(None) => exists|e: FromEnvErr<T::Error>| #[trigger]
                T::loads(bindings, Err(e)) && e@.is_provenance(),
            Err(e) => T::loads(bindings, Err(e)) && !e@.is_provenance(),
        }
    }

    proof fn lemma_loads_reads_inventory(
        first: Bindings,
        second: Bindings,
        r: Result<Self, FromEnvErr<T::Error>>,
    ) {
        match r {
            Ok(Some(v)) => T::lemma_loads_reads_inventory(first, second, Ok(v)),
            Ok(None) => {
                let e = choose|e: FromEnvErr<T::Error>| #[trigger]
                    T::loads(first, Err(e)) && e@.is_provenance();
                T::lemma_loads_reads_inventory(first, second, Err(e));
            },
            Err(e) => T::lemma_loads_reads_inventory(first, second, Err(e)),
        }
    }

    proof fn lemma_inventory_is_described() {
        T::lemma_inventory_is_described();
    }

    fn inventory() -> (items: Vec<EnvItemInfo>) {
        T::inventory()
    }

    fn check_inventory(env: &Env) -> (r: Result<(), Vec<EnvItemInfo>>) {
        T::check_inventory(env)
    }

    fn from_env(env: &Env) -> (r: Result<Self, FromEnvErr<T::Error>>) {
        match T::from_env(env) {
            Ok(v) => Ok(Some(v)),
            Err(FromEnvErr::ParseError(e)) => Err(FromEnvErr::ParseError(e)),
            Err(_) => Ok(None),
        }
    }
}

impl<T: FromEnv> FromEnv for Box<T> {
    type Error = T::Error;

    open spec fn spec_inventory() -> Seq<ItemInfo> {
        T::spec_inventory()
    }

    open spec fn loads(bindings: Bindings, r: Result<Self, FromEnvErr<T::Error>>) -> bool {
        T::loads(
            bindings,
            unboxed(r),
        )
    }

    proof fn lemma_loads_reads_inventory(
        first: Bindings,
        second: Bindings,
        r: Result<Self, FromEnvErr<T::Error>>,
    ) {
        T::lemma_loads_reads_inventory(
            first,
            second,
            unboxed(r),
        );
    }

    proof fn lemma_inventory_is_described() {
        T::lemma_inventory_is_described();
    }

    fn inventory() -> (items: Vec<EnvItemInfo>) {
        T::inventory()
    }

    fn check_inventory(env: &Env) -> (r: Result<(), Vec<EnvItemInfo>>) {
        T::check_inventory(env)
    }

    fn from_env(env: &Env) -> (r: Result<Self, FromEnvErr<T::Error>>) {
        match T::from_env(env) {
            Ok(v) => Ok(Box::new(v)),
            Err(e) => Err(e),
        }
    }
}

impl<T: FromEnv> FromEnv for std::sync::Arc<T> {
    type Error = T::Error;

    open spec fn spec_inventory() -> Seq<ItemInfo> {
        T::spec_inventory()
    }

    open spec fn loads(bindings: Bindings, r: Result<Self, FromEnvErr<T::Error>>) -> bool {
        T::loads(
            bindings,
            unshared(r),
        )
    }

    proof fn lemma_loads_reads_inventory(
        first: Bindings,
        second: Bindings,
        r: Result<Self, FromEnvErr<T::Error>>,
    ) {
        T::lemma_loads_reads_inventory(
            first,
            second,
            unshared(r),
        );
    }

    proof fn lemma_inventory_is_described() {
        T::lemma_inventory_is_described();
    }

    fn inventory() -> (items: Vec<EnvItemInfo>) {
        T::inventory()
    }

    fn check_inventory(env: &Env) -> (r: Result<(), Vec<EnvItemInfo>>) {
        T::check_inventory(env)
    }

    fn from_env(env: &Env) -> (r: Result<Self, FromEnvErr<T::Error>>) {
        match T::from_env(env) {
            Ok(v) => Ok(std::sync::Arc::new(v)),
            Err(e) => Err(e),
        }
    }
}

impl<T, U> FromEnv for std::borrow::Cow<'static, U> where
    T: FromEnv,
    U: std::borrow::ToOwned<Owned = T> + ?Sized + 'static,
 {
    type Error = T::Error;

    open spec fn spec_inventory() -> Seq<ItemInfo> {
        T::spec_inventory()
    }

    open spec fn loads(bindings: Bindings, r: Result<Self, FromEnvErr<T::Error>>) -> bool {
        match r {
            Ok(std::borrow::Cow::Owned(v)) => T::loads(bindings, Ok(v)),
            Ok(std::borrow::Cow::Borrowed(_)) => false,
            Err(e) => T::loads(bindings, Err(e)),
        }
    }

    proof fn lemma_loads_reads_inventory(
        first: Bindings,
        second: Bindings,
        r: Result<Self, FromEnvErr<T::Error>>,
    ) {
        match r {
            Ok(std::borrow::Cow::Owned(v)) => T::lemma_loads_reads_inventory(first, second, Ok(v)),
            Ok(std::borrow::Cow::Borrowed(_)) => {},
            Err(e) => T::lemma_loads_reads_inventory(first, second, Err(e)),
        }
    }

    proof fn lemma_inventory_is_described() {
        T::lemma_inventory_is_described();
    }

    fn inventory() -> (items: Vec<EnvItemInfo>) {
        T::inventory()
    }

    fn check_inventory(env: &Env) -> (r: Result<(), Vec<EnvItemInfo>>) {
        T::check_inventory(env)
    }

    fn from_env(env: &Env) -> (r: Result<Self, FromEnvErr<T::Error>>) {
        match T::from_env(env) {
            Ok(v) => Ok(std::borrow::Cow::Owned(v)),
            Err(e) => Err(e),
        }
    }
}

} // verus!
