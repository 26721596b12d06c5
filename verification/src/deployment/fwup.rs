//! The fwup command line.
use crate::deployment::DeploymentError;
use crate::text::{concat, owned, string_texts, trim, trimmed};
use vstd::prelude::*;

verus! {

/// The fwup arguments that apply a firmware file: apply mode, device path,
/// input file and task, then one `--public-key` option per signing key.
pub open spec fn fwup_arg_texts(
    firmware_path: Seq<char>,
    devpath: Seq<char>,
    task: Seq<char>,
    keys: Seq<Seq<char>>,
) -> Seq<Seq<char>>
    decreases keys.len(),
{
    if keys.len() == 0 {
        seq!["-a"@, "-d"@, devpath, "-i"@, firmware_path, "-t"@, task]
    } else {
        fwup_arg_texts(firmware_path, devpath, task, keys.drop_last()) + seq![
            "--public-key"@,
            keys.last(),
        ]
    }
}

/// The arguments passed to `fwup` to apply a firmware file.
pub fn fwup_args(firmware_path: &str, devpath: &str, task: &str, public_keys: &[String]) -> (r: Vec<
    String,
>)
    ensures
        string_texts(r@) == fwup_arg_texts(
            firmware_path@,
            devpath@,
            task@,
            string_texts(public_keys@),
        ),
{
    let mut args: Vec<String> = Vec::new();
    args.push(owned("-a"));
    args.push(owned("-d"));
    args.push(owned(devpath));
    args.push(owned("-i"));
    args.push(owned(firmware_path));
    args.push(owned("-t"));
    args.push(owned(task));
    proof {
        assert(string_texts(public_keys@).take(0) =~= Seq::<Seq<char>>::empty());
        assert(string_texts(args@) =~= fwup_arg_texts(
            firmware_path@,
            devpath@,
            task@,
            string_texts(public_keys@).take(0),
        ));
    }
    let mut i: usize = 0;
    while i < public_keys.len()
        invariant
            i <= public_keys.len(),
            string_texts(args@) == fwup_arg_texts(
                firmware_path@,
                devpath@,
                task@,
                string_texts(public_keys@).take(i as int),
            ),
        decreases public_keys.len() - i,
    {
        args.push(owned("--public-key"));
        args.push(public_keys[i].clone());
        proof {
            let ks = string_texts(public_keys@).take(i + 1);
            assert(ks.drop_last() =~= string_texts(public_keys@).take(i as int));
            assert(string_texts(args@) =~= fwup_arg_texts(firmware_path@, devpath@, task@, ks));
        }
        i = i + 1;
    }
    assert(string_texts(public_keys@).take(i as int) =~= string_texts(public_keys@));
    args
}

/// The error when fwup could not be started.
pub fn fwup_spawn_error(os_error: &str) -> (r: DeploymentError)
    ensures
        r matches DeploymentError::Fwup(m) && m@ == "failed to execute fwup: "@ + os_error@,
{
    DeploymentError::Fwup(concat("failed to execute fwup: ", os_error))
}

/// The text of a failed fwup run: its exit status and its standard error,
/// decoded leniently and trimmed.
pub open spec fn fwup_failure_text(status: Seq<char>, stderr: Seq<u8>) -> Seq<char> {
    "fwup exit "@ + status + ": "@ + trim(crate::scripts::utf8_lossy(stderr))
}

/// The outcome of a finished fwup run: success, or a `Fwup` error with the
/// exit status and the standard error.
pub fn fwup_outcome(success: bool, status: &str, stderr: &[u8]) -> (r: Result<(), DeploymentError>)
    ensures
        r is Ok <==> success,
        r matches Err(e) ==> (e matches DeploymentError::Fwup(m) && m@ == fwup_failure_text(status@, stderr@)),
{
    if success {
        return Ok(());
    }
    let text = crate::scripts::lossy_text(stderr);
    let mut m = concat("fwup exit ", status);
    m.append(": ");
    m.append(trimmed(text.as_str()).as_str());
    Err(DeploymentError::Fwup(m))
}

} // verus!
