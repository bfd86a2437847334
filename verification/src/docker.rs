//! The registry publisher: composes the argument list for the external
//! registry-transfer tool and decides the outcome of its invocation. The
//! surrounding binary spawns the tool; nothing here touches a process.

use vstd::prelude::*;
use vstd::string::StringExecFns;

use crate::BuilderError;

verus! {

/// The local-archive reference for the artifact at `location`.
pub open spec fn push_source_spec(location: Seq<char>) -> Seq<char> {
    "docker-archive:"@ + location
}

/// The remote reference the artifact is pushed to:
/// `docker://{registry}/{name}:{version}`.
pub open spec fn push_target_spec(name: Seq<char>, version: Seq<char>, registry: Seq<char>) -> Seq<
    char,
> {
    "docker://"@ + registry + seq!['/'] + name + seq![':'] + version
}

/// The destination-credential argument.
pub open spec fn push_creds_spec(creds: Seq<char>) -> Seq<char> {
    "--dest-creds="@ + creds
}

/// The full argument list for the external registry tool's copy operation,
/// in order: the insecure-policy flag, the copy verb, the local archive
/// reference, the remote target reference, and the destination credentials.
pub fn push_command_args(location: &str, name: &str, version: &str, registry: &str, creds: &str) -> (r:
    Vec<String>)
    ensures
        r@.len() == 5,
        r@[0]@ == "--insecure-policy"@,
        r@[1]@ == "copy"@,
        r@[2]@ == push_source_spec(location@),
        r@[3]@ == push_target_spec(name@, version@, registry@),
        r@[4]@ == push_creds_spec(creds@),
{
    let mut source = "docker-archive:".to_owned();
    source.append(location);
    let mut target = "docker://".to_owned();
    target.append(registry);
    target.append("/");
    target.append(name);
    target.append(":");
    target.append(version);
    let mut dest_creds = "--dest-creds=".to_owned();
    dest_creds.append(creds);
    proof {
        reveal_strlit("/");
        reveal_strlit(":");
        assert(target@ =~= push_target_spec(name@, version@, registry@));
    }
    let mut args: Vec<String> = Vec::new();
    args.push("--insecure-policy".to_owned());
    args.push("copy".to_owned());
    args.push(source);
    args.push(target);
    args.push(dest_creds);
    args
}

/// Decides the outcome of the registry tool's invocation: the push
/// succeeded exactly when the tool could be spawned and exited with status
/// zero; everything else is `PushError`.
pub fn push_outcome(spawned: bool, exit_ok: bool) -> (r: Result<(), BuilderError>)
    ensures
        r is Ok <==> spawned && exit_ok,
        !(spawned && exit_ok) ==> r matches Err(BuilderError::PushError),
{
    if spawned && exit_ok {
        Ok(())
    } else {
        Err(BuilderError::PushError)
    }
}

} // verus!
