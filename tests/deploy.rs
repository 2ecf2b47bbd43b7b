use snarkos_router::deploy::{ArgError, Deploy, DeployError, Opt, ProgramId};

fn args(v: &[&str]) -> Vec<String> {
    v.iter().map(|s| s.to_string()).collect()
}

#[test]
fn clap_snarkos_deploy() {
    let arg_vec = args(&[
        "snarkos",
        "developer",
        "deploy",
        "--private-key",
        "PRIVATE_KEY",
        "--query",
        "QUERY",
        "--fee",
        "77",
        "--record",
        "RECORD",
        "hello.aleo",
    ]);
    match Deploy::parse_from(&arg_vec) {
        Ok(deploy) => {
            assert_eq!(deploy.program_id, ProgramId::parse("hello.aleo").unwrap());
            assert_eq!(deploy.private_key, "PRIVATE_KEY");
            assert_eq!(deploy.query, "QUERY");
            assert_eq!(deploy.fee, 77);
            assert_eq!(deploy.record, "RECORD");
        }
        Err(_) => panic!("Unexpected result of clap parsing!"),
    }
}

fn base() -> Vec<&'static str> {
    vec!["snarkos", "developer", "deploy", "-p", "K", "-q", "Q", "-f", "5", "-r", "R", "hello.aleo"]
}

#[test]
fn short_options_and_flags() {
    let mut v = base();
    v.push("-d");
    v.push("--store");
    v.push("out.tx");
    v.push("--path");
    v.push("/tmp/p");
    let d = Deploy::parse_from(&args(&v)).unwrap();
    assert_eq!(d.fee, 5);
    assert!(d.dry_run);
    assert_eq!(d.store, Some("out.tx".to_string()));
    assert_eq!(d.path, Some("/tmp/p".to_string()));
    assert_eq!(d.broadcast, None);
    assert_eq!(d.program_id.to_text(), "hello.aleo");
    assert_eq!(d.check_action(), Ok(()));
}

#[test]
fn parse_errors() {
    assert_eq!(Deploy::parse_from(&args(&["snarkos", "developer", "run"])).unwrap_err(), ArgError::UnknownCommand);
    let mut v = base();
    v.push("--bogus");
    assert_eq!(Deploy::parse_from(&args(&v)).unwrap_err(), ArgError::UnknownArgument(12));
    let mut v = base();
    v.push("other.aleo");
    assert_eq!(Deploy::parse_from(&args(&v)).unwrap_err(), ArgError::UnexpectedArgument(12));
    let mut v = base();
    v.push("--broadcast");
    assert_eq!(Deploy::parse_from(&args(&v)).unwrap_err(), ArgError::MissingValue(12));
    let mut v = base();
    v.push("--fee");
    v.push("6");
    assert_eq!(Deploy::parse_from(&args(&v)).unwrap_err(), ArgError::Repeated(12));
    let mut v = base();
    v.push("-d");
    v.push("--dry-run");
    assert_eq!(Deploy::parse_from(&args(&v)).unwrap_err(), ArgError::Repeated(13));
    let mut v = base();
    v.push("-d");
    v.push("-b");
    v.push("http://x");
    assert_eq!(Deploy::parse_from(&args(&v)).unwrap_err(), ArgError::Conflict);
    let v = ["snarkos", "developer", "deploy", "-p", "K", "-f", "5", "-r", "R", "hello.aleo"];
    assert_eq!(Deploy::parse_from(&args(&v)).unwrap_err(), ArgError::Missing(Opt::Query));
    let v = ["snarkos", "developer", "deploy", "-p", "K", "-q", "Q", "-f", "5", "-r", "R"];
    assert_eq!(Deploy::parse_from(&args(&v)).unwrap_err(), ArgError::MissingProgramId);
    let v = ["snarkos", "developer", "deploy", "-p", "K", "-q", "Q", "-f", "5x", "-r", "R", "hello.aleo"];
    assert_eq!(Deploy::parse_from(&args(&v)).unwrap_err(), ArgError::InvalidFee);
    let v = ["snarkos", "developer", "deploy", "-p", "K", "-q", "Q", "-f", "5", "-r", "R", "1hello.aleo"];
    assert_eq!(Deploy::parse_from(&args(&v)).unwrap_err(), ArgError::InvalidProgramId);
}

#[test]
fn fee_limits() {
    let ok = ["snarkos", "developer", "deploy", "-p", "K", "-q", "Q", "-f", "18446744073709551615", "-r", "R", "a_1.aleo"];
    let d = Deploy::parse_from(&args(&ok)).unwrap();
    assert_eq!(d.fee, u64::MAX);
    assert_eq!(d.fee_in_microcredits(0), Ok(u64::MAX));
    assert_eq!(d.fee_in_microcredits(1), Err(DeployError::FeeOverflow));
    let over = ["snarkos", "developer", "deploy", "-p", "K", "-q", "Q", "-f", "18446744073709551616", "-r", "R", "a.aleo"];
    assert_eq!(Deploy::parse_from(&args(&over)).unwrap_err(), ArgError::InvalidFee);
}

#[test]
fn deploy_needs_an_action() {
    let d = Deploy::parse_from(&args(&base())).unwrap();
    assert_eq!(d.check_action(), Err(DeployError::NoAction));
    assert_eq!(d.fee_in_microcredits(1000), Ok(1005));
}

#[test]
fn program_ids() {
    let p = ProgramId::parse("hello.aleo").unwrap();
    assert_eq!(p.name, "hello");
    assert_eq!(p.network, "aleo");
    assert_eq!(ProgramId::parse(".aleo"), None);
    assert_eq!(ProgramId::parse("hello.eth"), None);
    assert_eq!(ProgramId::parse("he-llo.aleo"), None);
}
