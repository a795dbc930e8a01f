//! The token tool's command line: credentials for the provider's portal and
//! an output command saying where the refreshed token goes.
//!
//! The grammar is positional: `--client-id <v> --client-secret <v>` followed
//! by `console`, or by `kube-secret <name> --secret-key <v>` with the
//! optional `--namespace`, `--context` and `--cluster` pairs in that order.

use crate::kube;
use crate::text::str_eq;
use vstd::prelude::*;

verus! {

/// The token tool's options.
#[derive(Debug)]
pub struct Opts {
    /// The client identifier generated by the provider's portal.
    pub client_id: String,
    /// The client secret generated by the provider's portal.
    pub client_secret: String,
    pub output: OutputCommand,
}

/// Where the refreshed token goes.
#[derive(Debug)]
pub enum OutputCommand {
    /// Dump the token to the console.
    Console,
    /// Store the token as a cluster secret.
    KubeSecret(kube::Opts),
}

/// The command line was not of the expected shape.
#[derive(Debug, PartialEq, Eq)]
pub enum CliError {
    /// A required argument, or its value, was absent; carries its name.
    Missing(String),
    /// A token stood where none was expected.
    Unexpected(String),
    /// The output command is not one of the known ones.
    UnknownCommand(String),
}

/// The view of one argument.
pub open spec fn av(args: Seq<String>, i: int) -> Seq<char> {
    args[i]@
}

/// Whether the fixed prefix `--client-id <v> --client-secret <v> <command>`
/// is there.
pub open spec fn prefix_shape(args: Seq<String>) -> bool {
    &&& args.len() >= 2 && av(args, 0) == "--client-id"@
    &&& args.len() >= 4 && av(args, 2) == "--client-secret"@
    &&& args.len() >= 5
}

pub open spec fn kube_ns_present(args: Seq<String>) -> bool {
    args.len() > 8 && av(args, 8) == "--namespace"@
}

pub open spec fn kube_ctx_at(args: Seq<String>) -> int {
    if kube_ns_present(args) {
        10
    } else {
        8
    }
}

pub open spec fn kube_ctx_present(args: Seq<String>) -> bool {
    args.len() > kube_ctx_at(args) && av(args, kube_ctx_at(args)) == "--context"@
}

pub open spec fn kube_cluster_at(args: Seq<String>) -> int {
    kube_ctx_at(args) + if kube_ctx_present(args) {
        2int
    } else {
        0int
    }
}

pub open spec fn kube_cluster_present(args: Seq<String>) -> bool {
    args.len() > kube_cluster_at(args) && av(args, kube_cluster_at(args)) == "--cluster"@
}

pub open spec fn kube_end_at(args: Seq<String>) -> int {
    kube_cluster_at(args) + if kube_cluster_present(args) {
        2int
    } else {
        0int
    }
}

/// A well-formed `kube-secret` tail: the positional secret name, the
/// required `--secret-key` pair, then the optional pairs in order, and
/// nothing after them.
pub open spec fn kube_shape(args: Seq<String>) -> bool {
    &&& args.len() >= 6
    &&& args.len() >= 8 && av(args, 6) == "--secret-key"@
    &&& (kube_ns_present(args) ==> args.len() >= 10)
    &&& (kube_ctx_present(args) ==> args.len() >= kube_ctx_at(args) + 2)
    &&& (kube_cluster_present(args) ==> args.len() >= kube_cluster_at(args) + 2)
    &&& args.len() == kube_end_at(args)
}

pub open spec fn kube_opts_match(args: Seq<String>, o: kube::Opts) -> bool {
    &&& o.secret_name@ == av(args, 5)
    &&& o.secret_key@ == av(args, 7)
    &&& (o.namespace is Some <==> kube_ns_present(args))
    &&& (o.namespace matches Some(v) ==> v@ == av(args, 9))
    &&& (o.context is Some <==> kube_ctx_present(args))
    &&& (o.context matches Some(v) ==> v@ == av(args, kube_ctx_at(args) + 1))
    &&& (o.cluster is Some <==> kube_cluster_present(args))
    &&& (o.cluster matches Some(v) ==> v@ == av(args, kube_cluster_at(args) + 1))
}

impl Opts {
    /// Parse the tool's command line, the program's own name already
    /// dropped.
    pub fn parse_from_args(args: Vec<String>) -> (r: Result<Opts, CliError>)
        ensures
            ({
                let a = args@;
                &&& (!(a.len() >= 2 && av(a, 0) == "--client-id"@) ==> (r matches Err(
                    CliError::Missing(n),
                ) && n@ == "--client-id"@))
                &&& (a.len() >= 2 && av(a, 0) == "--client-id"@ && !(a.len() >= 4 && av(a, 2)
                    == "--client-secret"@) ==> (r matches Err(CliError::Missing(n)) && n@
                    == "--client-secret"@))
                &&& (a.len() >= 4 && av(a, 0) == "--client-id"@ && av(a, 2) == "--client-secret"@
                    && a.len() == 4 ==> (r matches Err(CliError::Missing(n)) && n@ == "command"@))
                &&& (prefix_shape(a) ==> {
                    &&& (r matches Ok(o) ==> o.client_id@ == av(a, 1) && o.client_secret@ == av(
                        a,
                        3,
                    ))
                    &&& (av(a, 4) == "console"@ ==> (if a.len() == 5 {
                        r matches Ok(o) && o.output is Console
                    } else {
                        r matches Err(CliError::Unexpected(t)) && t@ == av(a, 5)
                    }))
                    &&& (av(a, 4) == "kube-secret"@ ==> {
                        &&& (a.len() < 6 ==> (r matches Err(CliError::Missing(n)) && n@
                            == "secret name"@))
                        &&& (a.len() >= 6 && !(a.len() >= 8 && av(a, 6) == "--secret-key"@) ==> (
                        r matches Err(CliError::Missing(n)) && n@ == "--secret-key"@))
                        &&& (kube_shape(a) ==> (r matches Ok(o) && o.output matches
                            OutputCommand::KubeSecret(k) && kube_opts_match(a, k)))
                        &&& (a.len() >= 8 && av(a, 6) == "--secret-key"@ && !kube_shape(a) ==> r
                            is Err)
                    })
                    &&& (av(a, 4) != "console"@ && av(a, 4) != "kube-secret"@ ==> (r matches Err(
                        CliError::UnknownCommand(t),
                    ) && t@ == av(a, 4)))
                })
            }),
    {
        proof {
            reveal_strlit("console");
            reveal_strlit("kube-secret");
            assert("console"@.len() == 7);
            assert("kube-secret"@.len() == 11);
        }
        let n = args.len();
        if !(n >= 2 && str_eq(args[0].as_str(), "--client-id")) {
            return Err(CliError::Missing("--client-id".to_owned()));
        }
        if !(n >= 4 && str_eq(args[2].as_str(), "--client-secret")) {
            return Err(CliError::Missing("--client-secret".to_owned()));
        }
        if n == 4 {
            return Err(CliError::Missing("command".to_owned()));
        }
        let client_id = args[1].clone();
        let client_secret = args[3].clone();
        if str_eq(args[4].as_str(), "console") {
            if n > 5 {
                return Err(CliError::Unexpected(args[5].clone()));
            }
            return Ok(Opts { client_id, client_secret, output: OutputCommand::Console });
        }
        if !str_eq(args[4].as_str(), "kube-secret") {
            return Err(CliError::UnknownCommand(args[4].clone()));
        }
        if n < 6 {
            return Err(CliError::Missing("secret name".to_owned()));
        }
        let secret_name = args[5].clone();
        if !(n >= 8 && str_eq(args[6].as_str(), "--secret-key")) {
            return Err(CliError::Missing("--secret-key".to_owned()));
        }
        let secret_key = args[7].clone();
        let mut i: usize = 8;
        let mut namespace: Option<String> = None;
        if i < n && str_eq(args[i].as_str(), "--namespace") {
            if i + 1 >= n {
                return Err(CliError::Missing("--namespace".to_owned()));
            }
            namespace = Some(args[i + 1].clone());
            i = i + 2;
        }
        let mut context: Option<String> = None;
        if i < n && str_eq(args[i].as_str(), "--context") {
            if i + 1 >= n {
                return Err(CliError::Missing("--context".to_owned()));
            }
            context = Some(args[i + 1].clone());
            i = i + 2;
        }
        let mut cluster: Option<String> = None;
        if i < n && str_eq(args[i].as_str(), "--cluster") {
            if i + 1 >= n {
                return Err(CliError::Missing("--cluster".to_owned()));
            }
            cluster = Some(args[i + 1].clone());
            i = i + 2;
        }
        if i < n {
            return Err(CliError::Unexpected(args[i].clone()));
        }
        Ok(
            Opts {
                client_id,
                client_secret,
                output: OutputCommand::KubeSecret(
                    kube::Opts { secret_name, secret_key, namespace, context, cluster },
                ),
            },
        )
    }
}

} // verus!
