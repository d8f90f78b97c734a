//! What the command line programs share: their arguments, the environment
//! variables they look at, the parameters decided from both, and what they
//! write for each input.
use vstd::prelude::*;

pub mod converter;
pub mod error;
pub mod execcode;

pub use execcode::EXIT_CODE_NG;
pub use execcode::EXIT_CODE_OK;
pub use execcode::EXIT_CODE_SOME_DT_NOT_CONVERTED;

verus! {

/// The format of datetimes where none is given.
pub const DT_FMT: &'static str = "%Y-%m-%dT%H:%M:%S%.3f";

/// The name of the table file that is looked for beside the program where
/// none is given.
pub const LEAPS_TABLE_FILENAME: &'static str = "leaps.txt";

/// The text of an optional string.
pub open spec fn optional_text(value: Option<String>) -> Option<Seq<char>> {
    match value {
        Some(text) => Some(text@),
        None => None,
    }
}

/// The texts of a list of strings.
pub open spec fn texts_of(values: Seq<String>) -> Seq<Seq<char>> {
    values.map_values(|text: String| text@)
}

/// The mathematical value of [`Arguments`].
pub struct ArgumentsView {
    pub leaps_dt_fmt: Option<Seq<char>>,
    pub dt_fmt: Option<Seq<char>>,
    pub io_pair_flg: bool,
    pub leaps_path: Option<Seq<char>>,
    pub datetimes: Seq<Seq<char>>,
}

/// What was given on the command line.
pub struct Arguments {
    leaps_dt_fmt: Option<String>,
    dt_fmt: Option<String>,
    io_pair_flg: bool,
    leaps_path: Option<String>,
    datetimes: Vec<String>,
}

impl View for Arguments {
    type V = ArgumentsView;

    closed spec fn view(&self) -> ArgumentsView {
        ArgumentsView {
            leaps_dt_fmt: optional_text(self.leaps_dt_fmt),
            dt_fmt: optional_text(self.dt_fmt),
            io_pair_flg: self.io_pair_flg,
            leaps_path: optional_text(self.leaps_path),
            datetimes: texts_of(self.datetimes@),
        }
    }
}

/// The text of an optional string, borrowed.
fn borrowed(value: &Option<String>) -> (r: Option<&str>)
    ensures
        r matches Some(text) ==> optional_text(*value) == Some(text@),
        r is None ==> value is None,
{
    match value {
        Some(text) => Some(text.as_str()),
        None => None,
    }
}

impl Arguments {
    /// The arguments as they were read from the command line: the format of
    /// the datetimes in the table file, the format of the datetimes to
    /// convert, whether each input is written before its result, the path
    /// of the table file, and the datetimes to convert.
    pub fn new(
        leaps_dt_fmt: Option<String>,
        dt_fmt: Option<String>,
        io_pair_flg: bool,
        leaps_path: Option<String>,
        datetimes: Vec<String>,
    ) -> (args: Arguments)
        ensures
            args@ == (ArgumentsView {
                leaps_dt_fmt: optional_text(leaps_dt_fmt),
                dt_fmt: optional_text(dt_fmt),
                io_pair_flg,
                leaps_path: optional_text(leaps_path),
                datetimes: texts_of(datetimes@),
            }),
    {
        Arguments { leaps_dt_fmt, dt_fmt, io_pair_flg, leaps_path, datetimes }
    }

    /// The format of the datetimes to convert, if one was given.
    pub fn get_dt_fmt(&self) -> (r: Option<&str>)
        ensures
            r matches Some(text) ==> self@.dt_fmt == Some(text@),
            r is None ==> self@.dt_fmt is None,
    {
        borrowed(&self.dt_fmt)
    }

    /// The format of the datetimes in the table file, if one was given.
    pub fn get_leaps_dt_fmt(&self) -> (r: Option<&str>)
        ensures
            r matches Some(text) ==> self@.leaps_dt_fmt == Some(text@),
            r is None ==> self@.leaps_dt_fmt is None,
    {
        borrowed(&self.leaps_dt_fmt)
    }

    /// The path of the table file, if one was given.
    pub fn get_leaps_path(&self) -> (r: Option<&str>)
        ensures
            r matches Some(text) ==> self@.leaps_path == Some(text@),
            r is None ==> self@.leaps_path is None,
    {
        borrowed(&self.leaps_path)
    }

    /// Whether each input is written before its result.
    pub fn get_io_pair_flg(&self) -> (r: bool)
        ensures
            r == self@.io_pair_flg,
    {
        self.io_pair_flg
    }

    /// The datetimes to convert.
    pub fn get_datetimes(&self) -> (r: &Vec<String>)
        ensures
            texts_of(r@) == self@.datetimes,
    {
        &self.datetimes
    }
}

/// The value that the environment gives a variable: that of the last pair
/// with the variable's name.
pub open spec fn env_value(vars: Seq<(Seq<char>, Seq<char>)>, name: Seq<char>) -> Option<
    Seq<char>,
>
    decreases vars.len(),
{
    if vars.len() == 0 {
        None
    } else if vars.last().0 == name {
        Some(vars.last().1)
    } else {
        env_value(vars.drop_last(), name)
    }
}

/// The texts of the pairs of an environment.
pub open spec fn env_texts(vars: Seq<(String, String)>) -> Seq<(Seq<char>, Seq<char>)> {
    vars.map_values(|pair: (String, String)| (pair.0@, pair.1@))
}

/// The mathematical value of [`EnvValues`].
pub struct EnvValuesView {
    pub dt_fmt: Option<Seq<char>>,
    pub leaps_dt_fmt: Option<Seq<char>>,
    pub leaps_path: Option<Seq<char>>,
}

/// The environment variables that the programs look at.
pub struct EnvValues {
    dt_fmt: Option<String>,
    leaps_dt_fmt: Option<String>,
    leaps_path: Option<String>,
}

impl View for EnvValues {
    type V = EnvValuesView;

    closed spec fn view(&self) -> EnvValuesView {
        EnvValuesView {
            dt_fmt: optional_text(self.dt_fmt),
            leaps_dt_fmt: optional_text(self.leaps_dt_fmt),
            leaps_path: optional_text(self.leaps_path),
        }
    }
}

/// Looks a variable up in the pairs of an environment.
fn lookup(vars: &Vec<(String, String)>, name: &str) -> (r: Option<String>)
    ensures
        optional_text(r) == env_value(env_texts(vars@), name@),
{
    let key: String = name.to_owned();
    let ghost texts = env_texts(vars@);
    let mut i: usize = vars.len();
    assert(texts.take(i as int) == texts);
    while i > 0
        invariant
            i <= vars.len(),
            key@ == name@,
            texts == env_texts(vars@),
            env_value(texts, name@) == env_value(texts.take(i as int), name@),
        decreases i,
    {
        i -= 1;
        assert(texts.take(i + 1).drop_last() == texts.take(i as int));
        if vars[i].0 == key {
            return Some(vars[i].1.clone());
        }
    }
    None
}

impl EnvValues {
    /// Picks the variables `DT_FMT`, `LEAPS_DT_FMT` and `LEAPS_TABLE` out of
    /// the pairs of an environment. Of two pairs with one name the later
    /// one counts.
    pub fn new(vars: Vec<(String, String)>) -> (env_vars: EnvValues)
        ensures
            env_vars@ == (EnvValuesView {
                dt_fmt: env_value(env_texts(vars@), "DT_FMT"@),
                leaps_dt_fmt: env_value(env_texts(vars@), "LEAPS_DT_FMT"@),
                leaps_path: env_value(env_texts(vars@), "LEAPS_TABLE"@),
            }),
    {
        EnvValues {
            dt_fmt: lookup(&vars, "DT_FMT"),
            leaps_dt_fmt: lookup(&vars, "LEAPS_DT_FMT"),
            leaps_path: lookup(&vars, "LEAPS_TABLE"),
        }
    }

    /// The value of `DT_FMT`, if it is set.
    pub fn get_dt_fmt(&self) -> (r: Option<&str>)
        ensures
            r matches Some(text) ==> self@.dt_fmt == Some(text@),
            r is None ==> self@.dt_fmt is None,
    {
        borrowed(&self.dt_fmt)
    }

    /// The value of `LEAPS_DT_FMT`, if it is set.
    pub fn get_leaps_dt_fmt(&self) -> (r: Option<&str>)
        ensures
            r matches Some(text) ==> self@.leaps_dt_fmt == Some(text@),
            r is None ==> self@.leaps_dt_fmt is None,
    {
        borrowed(&self.leaps_dt_fmt)
    }

    /// The value of `LEAPS_TABLE`, if it is set.
    pub fn get_leaps_path(&self) -> (r: Option<&str>)
        ensures
            r matches Some(text) ==> self@.leaps_path == Some(text@),
            r is None ==> self@.leaps_path is None,
    {
        borrowed(&self.leaps_path)
    }
}

/// What is decided for a parameter: the argument where one was given, else
/// the environment variable where it is set, else the default.
pub open spec fn decided(
    arg: Option<Seq<char>>,
    env: Option<Seq<char>>,
    default: Seq<char>,
) -> Seq<char> {
    match arg {
        Some(text) => text,
        None => match env {
            Some(text) => text,
            None => default,
        },
    }
}

/// Decides a parameter from the argument, the environment variable and the
/// default.
fn decide<'a>(arg: Option<&'a str>, env: Option<&'a str>, default: &'a str) -> (r: &'a str)
    ensures
        r@ == match arg {
            Some(text) => text@,
            None => match env {
                Some(text) => text@,
                None => default@,
            },
        },
{
    match arg {
        Some(text) => text,
        None => match env {
            Some(text) => text,
            None => default,
        },
    }
}

/// The mathematical value of [`Parameters`].
pub struct ParametersView {
    pub dt_fmt: Seq<char>,
    pub leaps_dt_fmt: Seq<char>,
    pub leaps_path: Seq<char>,
    pub io_pair_flg: bool,
}

/// The parameters that a program runs with.
pub struct Parameters<'a> {
    dt_fmt: &'a str,
    leaps_dt_fmt: &'a str,
    leaps_path: &'a str,
    io_pair_flg: bool,
}

impl<'a> View for Parameters<'a> {
    type V = ParametersView;

    closed spec fn view(&self) -> ParametersView {
        ParametersView {
            dt_fmt: self.dt_fmt@,
            leaps_dt_fmt: self.leaps_dt_fmt@,
            leaps_path: self.leaps_path@,
            io_pair_flg: self.io_pair_flg,
        }
    }
}

impl<'a> Parameters<'a> {
    /// Decides the parameters. For each of them the argument comes first,
    /// the environment variable second. Where neither is there, the formats
    /// are [`DT_FMT`] and the path of the table file is
    /// `default_leaps_path`.
    pub fn new(args: &'a Arguments, env_vars: &'a EnvValues, default_leaps_path: &'a str) -> (params:
        Parameters<'a>)
        ensures
            params@ == (ParametersView {
                dt_fmt: decided(args@.dt_fmt, env_vars@.dt_fmt, DT_FMT@),
                leaps_dt_fmt: decided(args@.leaps_dt_fmt, env_vars@.leaps_dt_fmt, DT_FMT@),
                leaps_path: decided(args@.leaps_path, env_vars@.leaps_path, default_leaps_path@),
                io_pair_flg: args@.io_pair_flg,
            }),
    {
        Parameters {
            dt_fmt: decide(args.get_dt_fmt(), env_vars.get_dt_fmt(), DT_FMT),
            leaps_dt_fmt: decide(args.get_leaps_dt_fmt(), env_vars.get_leaps_dt_fmt(), DT_FMT),
            leaps_path: decide(args.get_leaps_path(), env_vars.get_leaps_path(), default_leaps_path),
            io_pair_flg: args.get_io_pair_flg(),
        }
    }

    /// The format of the datetimes to convert.
    pub fn get_dt_fmt(&self) -> (r: &str)
        ensures
            r@ == self@.dt_fmt,
    {
        self.dt_fmt
    }

    /// The format of the datetimes in the table file.
    pub fn get_leaps_dt_fmt(&self) -> (r: &str)
        ensures
            r@ == self@.leaps_dt_fmt,
    {
        self.leaps_dt_fmt
    }

    /// Whether each input is written before its result.
    pub fn io_pair_flg(&self) -> (r: bool)
        ensures
            r == self@.io_pair_flg,
    {
        self.io_pair_flg
    }

    /// The path of the table file.
    pub fn get_leaps_path(&self) -> (r: &str)
        ensures
            r@ == self@.leaps_path,
    {
        self.leaps_path
    }
}

} // verus!
