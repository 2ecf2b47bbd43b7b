//! The `developer deploy` command: reading its arguments, and the checks made
//! before a deployment transaction is built.
use crate::text::{is_identifier, u64_of, check_identifier, parse_u64, same_text};
use vstd::prelude::*;
use vstd::string::*;

verus! {

/// The name of the program that `s` names: an identifier followed by `.aleo`.
pub open spec fn program_name_of(s: Seq<char>) -> Option<Seq<char>> {
    if s.len() > 5 && s.subrange(s.len() - 5, s.len() as int) == ".aleo"@ && is_identifier(
        s.take(s.len() - 5),
    ) {
        Some(s.take(s.len() - 5))
    } else {
        None
    }
}

/// A program id, such as `hello.aleo`.
#[derive(Debug, PartialEq, Eq)]
pub struct ProgramId {
    pub name: String,
    pub network: String,
}

impl ProgramId {
    /// Reads a program id; `None` when `s` is not one.
    pub fn parse(s: &str) -> (r: Option<ProgramId>)
        ensures
            match r {
                Some(p) => program_name_of(s@) == Some(p.name@) && p.network@ == "aleo"@,
                None => program_name_of(s@) is None,
            },
    {
        let n = s.unicode_len();
        if n <= 5 {
            return None;
        }
        let suffix = s.substring_char(n - 5, n);
        if !same_text(suffix, ".aleo") {
            return None;
        }
        let name = s.substring_char(0, n - 5);
        proof {
            assert(name@ =~= s@.take(n - 5));
        }
        if !check_identifier(name) {
            return None;
        }
        Some(ProgramId { name: String::from_str(name), network: String::from_str("aleo") })
    }

    /// The id as it is written, `name.network`.
    pub fn to_text(&self) -> (r: String)
        ensures
            r@ == self.name@ + "."@ + self.network@,
    {
        let r = String::from_str(self.name.as_str());
        let r = r.concat(".");
        r.concat(self.network.as_str())
    }
}

/// The options of the command that take a value.
#[derive(Clone, Copy, Debug, PartialEq, Eq, Structural)]
pub enum Opt {
    Path,
    PrivateKey,
    Query,
    Fee,
    Record,
    Broadcast,
    Store,
}

/// The option that the token `t` names.
pub open spec fn opt_named(t: Seq<char>) -> Option<Opt> {
    if t == "--path"@ {
        Some(Opt::Path)
    } else if t == "--private-key"@ || t == "-p"@ {
        Some(Opt::PrivateKey)
    } else if t == "--query"@ || t == "-q"@ {
        Some(Opt::Query)
    } else if t == "--fee"@ || t == "-f"@ {
        Some(Opt::Fee)
    } else if t == "--record"@ || t == "-r"@ {
        Some(Opt::Record)
    } else if t == "--broadcast"@ || t == "-b"@ {
        Some(Opt::Broadcast)
    } else if t == "--store"@ {
        Some(Opt::Store)
    } else {
        None
    }
}

pub open spec fn is_dry_run_flag(t: Seq<char>) -> bool {
    t == "--dry-run"@ || t == "-d"@
}

fn option_named(t: &str) -> (r: Option<Opt>)
    ensures
        r == opt_named(t@),
{
    if same_text(t, "--path") {
        Some(Opt::Path)
    } else if same_text(t, "--private-key") || same_text(t, "-p") {
        Some(Opt::PrivateKey)
    } else if same_text(t, "--query") || same_text(t, "-q") {
        Some(Opt::Query)
    } else if same_text(t, "--fee") || same_text(t, "-f") {
        Some(Opt::Fee)
    } else if same_text(t, "--record") || same_text(t, "-r") {
        Some(Opt::Record)
    } else if same_text(t, "--broadcast") || same_text(t, "-b") {
        Some(Opt::Broadcast)
    } else if same_text(t, "--store") {
        Some(Opt::Store)
    } else {
        None
    }
}

/// Why the arguments of the command were refused. A position counts the
/// arguments from the program name on.
#[derive(Clone, Copy, Debug, PartialEq, Eq, Structural)]
pub enum ArgError {
    /// The arguments do not start with `developer deploy`.
    UnknownCommand,
    /// An option that the command does not have.
    UnknownArgument(usize),
    /// A second positional argument.
    UnexpectedArgument(usize),
    /// An option at the end, without its value.
    MissingValue(usize),
    /// An option given a second time.
    Repeated(usize),
    /// A required option is absent.
    Missing(Opt),
    MissingProgramId,
    InvalidProgramId,
    InvalidFee,
    /// `--broadcast` together with `--dry-run`.
    Conflict,
}

/// What the arguments read so far have set.
pub struct Scan {
    pub path: Option<Seq<char>>,
    pub private_key: Option<Seq<char>>,
    pub query: Option<Seq<char>>,
    pub fee: Option<Seq<char>>,
    pub record: Option<Seq<char>>,
    pub broadcast: Option<Seq<char>>,
    pub store: Option<Seq<char>>,
    pub dry_run: bool,
    pub program: Option<Seq<char>>,
}

impl Scan {
    pub open spec fn empty() -> Scan {
        Scan {
            path: None,
            private_key: None,
            query: None,
            fee: None,
            record: None,
            broadcast: None,
            store: None,
            dry_run: false,
            program: None,
        }
    }

    pub open spec fn get(self, o: Opt) -> Option<Seq<char>> {
        match o {
            Opt::Path => self.path,
            Opt::PrivateKey => self.private_key,
            Opt::Query => self.query,
            Opt::Fee => self.fee,
            Opt::Record => self.record,
            Opt::Broadcast => self.broadcast,
            Opt::Store => self.store,
        }
    }

    pub open spec fn set(self, o: Opt, v: Seq<char>) -> Scan {
        match o {
            Opt::Path => Scan { path: Some(v), ..self },
            Opt::PrivateKey => Scan { private_key: Some(v), ..self },
            Opt::Query => Scan { query: Some(v), ..self },
            Opt::Fee => Scan { fee: Some(v), ..self },
            Opt::Record => Scan { record: Some(v), ..self },
            Opt::Broadcast => Scan { broadcast: Some(v), ..self },
            Opt::Store => Scan { store: Some(v), ..self },
        }
    }
}

/// Reads the arguments from position `i` on, left to right: a flag, an
/// option followed by its value, or the one positional program id.
pub open spec fn scan(toks: Seq<Seq<char>>, i: int, st: Scan) -> Result<Scan, ArgError>
    decreases toks.len() - i,
{
    if i < 0 || i >= toks.len() {
        Ok(st)
    } else {
        let t = toks[i];
        if is_dry_run_flag(t) {
            if st.dry_run {
                Err(ArgError::Repeated(i as usize))
            } else {
                scan(toks, i + 1, Scan { dry_run: true, ..st })
            }
        } else {
            match opt_named(t) {
                Some(o) => if i + 1 >= toks.len() {
                    Err(ArgError::MissingValue(i as usize))
                } else if st.get(o) is Some {
                    Err(ArgError::Repeated(i as usize))
                } else {
                    scan(toks, i + 2, st.set(o, toks[i + 1]))
                },
                None => if t.len() > 0 && t[0] == '-' {
                    Err(ArgError::UnknownArgument(i as usize))
                } else if st.program is Some {
                    Err(ArgError::UnexpectedArgument(i as usize))
                } else {
                    scan(toks, i + 1, Scan { program: Some(t), ..st })
                },
            }
        }
    }
}

/// The command as a mathematical value.
pub struct DeployView {
    pub program_name: Seq<char>,
    pub path: Option<Seq<char>>,
    pub private_key: Seq<char>,
    pub query: Seq<char>,
    pub fee: u64,
    pub record: Seq<char>,
    pub broadcast: Option<Seq<char>>,
    pub dry_run: bool,
    pub store: Option<Seq<char>>,
}

/// The command that a complete scan describes, or what is wrong with it.
pub open spec fn finish(sc: Scan) -> Result<DeployView, ArgError> {
    if sc.program is None {
        Err(ArgError::MissingProgramId)
    } else if sc.private_key is None {
        Err(ArgError::Missing(Opt::PrivateKey))
    } else if sc.query is None {
        Err(ArgError::Missing(Opt::Query))
    } else if sc.fee is None {
        Err(ArgError::Missing(Opt::Fee))
    } else if sc.record is None {
        Err(ArgError::Missing(Opt::Record))
    } else if program_name_of(sc.program->0) is None {
        Err(ArgError::InvalidProgramId)
    } else if u64_of(sc.fee->0) is None {
        Err(ArgError::InvalidFee)
    } else if sc.broadcast is Some && sc.dry_run {
        Err(ArgError::Conflict)
    } else {
        Ok(
            DeployView {
                program_name: program_name_of(sc.program->0)->0,
                path: sc.path,
                private_key: sc.private_key->0,
                query: sc.query->0,
                fee: u64_of(sc.fee->0)->0,
                record: sc.record->0,
                broadcast: sc.broadcast,
                dry_run: sc.dry_run,
                store: sc.store,
            },
        )
    }
}

/// The command that a whole argument list describes, program name first.
pub open spec fn parse_spec(toks: Seq<Seq<char>>) -> Result<DeployView, ArgError> {
    if toks.len() < 3 || toks[1] != "developer"@ || toks[2] != "deploy"@ {
        Err(ArgError::UnknownCommand)
    } else {
        match scan(toks, 3, Scan::empty()) {
            Ok(sc) => finish(sc),
            Err(e) => Err(e),
        }
    }
}

pub open spec fn text_of(o: Option<String>) -> Option<Seq<char>> {
    match o {
        Some(s) => Some(s@),
        None => None,
    }
}

pub open spec fn texts_of(args: Seq<String>) -> Seq<Seq<char>> {
    args.map_values(|s: String| s@)
}

struct Collected {
    path: Option<String>,
    private_key: Option<String>,
    query: Option<String>,
    fee: Option<String>,
    record: Option<String>,
    broadcast: Option<String>,
    store: Option<String>,
    dry_run: bool,
    program: Option<String>,
}

impl Collected {
    spec fn scan_view(&self) -> Scan {
        Scan {
            path: text_of(self.path),
            private_key: text_of(self.private_key),
            query: text_of(self.query),
            fee: text_of(self.fee),
            record: text_of(self.record),
            broadcast: text_of(self.broadcast),
            store: text_of(self.store),
            dry_run: self.dry_run,
            program: text_of(self.program),
        }
    }

    fn has(&self, o: Opt) -> (r: bool)
        ensures
            r == self.scan_view().get(o) is Some,
    {
        match o {
            Opt::Path => self.path.is_some(),
            Opt::PrivateKey => self.private_key.is_some(),
            Opt::Query => self.query.is_some(),
            Opt::Fee => self.fee.is_some(),
            Opt::Record => self.record.is_some(),
            Opt::Broadcast => self.broadcast.is_some(),
            Opt::Store => self.store.is_some(),
        }
    }

    fn set(&mut self, o: Opt, v: String)
        ensures
            final(self).scan_view() == old(self).scan_view().set(o, v@),
    {
        match o {
            Opt::Path => self.path = Some(v),
            Opt::PrivateKey => self.private_key = Some(v),
            Opt::Query => self.query = Some(v),
            Opt::Fee => self.fee = Some(v),
            Opt::Record => self.record = Some(v),
            Opt::Broadcast => self.broadcast = Some(v),
            Opt::Store => self.store = Some(v),
        }
    }
}

/// Why a deployment cannot go ahead.
#[derive(Clone, Copy, Debug, PartialEq, Eq, Structural)]
pub enum DeployError {
    /// None of `--broadcast`, `--dry-run` and `--store` was given.
    NoAction,
    /// The minimum cost plus the priority fee does not fit in a `u64`.
    FeeOverflow,
}

/// Deploys an Aleo program.
#[derive(Debug)]
pub struct Deploy {
    /// The program to deploy.
    pub program_id: ProgramId,
    /// A directory holding a manifest file.
    pub path: Option<String>,
    /// The private key that signs the deployment.
    pub private_key: String,
    /// The endpoint to query node state from.
    pub query: String,
    /// The priority fee in microcredits.
    pub fee: u64,
    /// The record to spend the fee from.
    pub record: String,
    /// The endpoint to broadcast the transaction to.
    pub broadcast: Option<String>,
    /// Build the transaction only.
    pub dry_run: bool,
    /// A file to store the transaction in.
    pub store: Option<String>,
}

impl View for Deploy {
    type V = DeployView;

    open spec fn view(&self) -> DeployView {
        DeployView {
            program_name: self.program_id.name@,
            path: text_of(self.path),
            private_key: self.private_key@,
            query: self.query@,
            fee: self.fee,
            record: self.record@,
            broadcast: text_of(self.broadcast),
            dry_run: self.dry_run,
            store: text_of(self.store),
        }
    }
}

impl Deploy {
    /// Reads the command from its argument list, program name first, as in
    /// `snarkos developer deploy --private-key KEY ... hello.aleo`.
    pub fn parse_from(args: &Vec<String>) -> (r: Result<Deploy, ArgError>)
        ensures
            match r {
                Ok(d) => parse_spec(texts_of(args@)) == Ok::<DeployView, ArgError>(d@)
                    && d.program_id.network@ == "aleo"@,
                Err(e) => parse_spec(texts_of(args@)) == Err::<DeployView, ArgError>(e),
            },
    {
        let ghost toks = texts_of(args@);
        let n = args.len();
        if n < 3 || !same_text(args[1].as_str(), "developer") || !same_text(args[2].as_str(), "deploy") {
            return Err(ArgError::UnknownCommand);
        }
        proof {
            assert(toks[1] == args@[1]@);
            assert(toks[2] == args@[2]@);
        }
        let mut c = Collected {
            path: None,
            private_key: None,
            query: None,
            fee: None,
            record: None,
            broadcast: None,
            store: None,
            dry_run: false,
            program: None,
        };
        let mut i: usize = 3;
        while i < n
            invariant
                n == args@.len(),
                toks == texts_of(args@),
                toks.len() == n,
                toks[1] == "developer"@,
                toks[2] == "deploy"@,
                3 <= i <= n,
                scan(toks, 3, Scan::empty()) == scan(toks, i as int, c.scan_view()),
            decreases n - i,
        {
            let t = args[i].as_str();
            proof {
                assert(toks[i as int] == t@);
            }
            if same_text(t, "--dry-run") || same_text(t, "-d") {
                if c.dry_run {
                    proof {
                        assert(is_dry_run_flag(toks[i as int]));
                        assert(scan(toks, i as int, c.scan_view()) == Err::<Scan, ArgError>(
                            ArgError::Repeated(i),
                        ));
                    }
                    return Err(ArgError::Repeated(i));
                }
                c.dry_run = true;
                i = i + 1;
            } else {
                match option_named(t) {
                    Some(o) => {
                        proof {
                            assert(!is_dry_run_flag(toks[i as int]));
                            assert(opt_named(toks[i as int]) == Some(o));
                        }
                        if i + 1 >= n {
                            proof {
                                assert(scan(toks, i as int, c.scan_view()) == Err::<Scan, ArgError>(
                                    ArgError::MissingValue(i),
                                ));
                            }
                            return Err(ArgError::MissingValue(i));
                        }
                        if c.has(o) {
                            proof {
                                assert(scan(toks, i as int, c.scan_view()) == Err::<Scan, ArgError>(
                                    ArgError::Repeated(i),
                                ));
                            }
                            return Err(ArgError::Repeated(i));
                        }
                        proof {
                            assert(toks[i + 1] == args@[i + 1]@);
                        }
                        c.set(o, args[i + 1].clone());
                        i = i + 2;
                    },
                    None => {
                        if t.unicode_len() > 0 && t.get_char(0) == '-' {
                            return Err(ArgError::UnknownArgument(i));
                        }
                        if c.program.is_some() {
                            return Err(ArgError::UnexpectedArgument(i));
                        }
                        c.program = Some(args[i].clone());
                        i = i + 1;
                    },
                }
            }
        }
        let ghost sc = c.scan_view();
        assert(scan(toks, 3, Scan::empty()) == Ok::<Scan, ArgError>(sc));
        let Collected { path, private_key, query, fee, record, broadcast, store, dry_run, program } = c;
        let program = match program {
            Some(p) => p,
            None => {
                return Err(ArgError::MissingProgramId);
            },
        };
        let private_key = match private_key {
            Some(v) => v,
            None => {
                return Err(ArgError::Missing(Opt::PrivateKey));
            },
        };
        let query = match query {
            Some(v) => v,
            None => {
                return Err(ArgError::Missing(Opt::Query));
            },
        };
        let fee = match fee {
            Some(v) => v,
            None => {
                return Err(ArgError::Missing(Opt::Fee));
            },
        };
        let record = match record {
            Some(v) => v,
            None => {
                return Err(ArgError::Missing(Opt::Record));
            },
        };
        let program_id = match ProgramId::parse(program.as_str()) {
            Some(p) => p,
            None => {
                return Err(ArgError::InvalidProgramId);
            },
        };
        let fee = match parse_u64(fee.as_str()) {
            Some(v) => v,
            None => {
                return Err(ArgError::InvalidFee);
            },
        };
        if broadcast.is_some() && dry_run {
            return Err(ArgError::Conflict);
        }
        Ok(Deploy { program_id, path, private_key, query, fee, record, broadcast, dry_run, store })
    }

    /// Succeeds when at least one of `--broadcast`, `--dry-run` and `--store`
    /// says what to do with the transaction.
    pub fn check_action(&self) -> (r: Result<(), DeployError>)
        ensures
            r == (if !self.dry_run && self.broadcast is None && self.store is None {
                Err::<(), DeployError>(DeployError::NoAction)
            } else {
                Ok(())
            }),
    {
        if !self.dry_run && self.broadcast.is_none() && self.store.is_none() {
            Err(DeployError::NoAction)
        } else {
            Ok(())
        }
    }

    /// The fee to pay: the minimum deployment cost plus the priority fee.
    pub fn fee_in_microcredits(&self, minimum_deployment_cost: u64) -> (r: Result<u64, DeployError>)
        ensures
            r == (if minimum_deployment_cost + self.fee > u64::MAX {
                Err::<u64, DeployError>(DeployError::FeeOverflow)
            } else {
                Ok((minimum_deployment_cost + self.fee) as u64)
            }),
    {
        match minimum_deployment_cost.checked_add(self.fee) {
            Some(t) => Ok(t),
            None => Err(DeployError::FeeOverflow),
        }
    }
}

} // verus!
