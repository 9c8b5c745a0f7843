//! Runtime invocation planning.
//!
//! The external runtime command is built in a fixed order: the optional
//! invoke flag, the sandbox-directory grant, the module path, then the
//! trailing user arguments. The exit of the spawned process is read back
//! into the failure taxonomy.

use vstd::prelude::*;
use vstd::string::StringExecFns;

use crate::error::Error;

verus! {

/// The documented argument order:
/// `[--invoke {target}] --dir {work_dir} {module} [extra...]`.
pub open spec fn invocation_spec(
    invoke: Option<Seq<char>>,
    work_dir: Seq<char>,
    module: Seq<char>,
    extra: Seq<Seq<char>>,
) -> Seq<Seq<char>> {
    let head = match invoke {
        Some(target) => seq!["--invoke"@, target],
        None => Seq::<Seq<char>>::empty(),
    };
    head + seq!["--dir"@, work_dir, module] + extra
}

/// Build the runtime's argument vector in the documented order.
pub fn build_invocation(
    invoke: &Option<String>,
    work_dir: &str,
    module: &str,
    extra: &Vec<String>,
) -> (args: Vec<String>)
    ensures
        args.deep_view() == invocation_spec(invoke.deep_view(), work_dir@, module@, extra.deep_view()),
{
    let mut args: Vec<String> = Vec::new();
    match invoke {
        Some(target) => {
            args.push(String::from_str("--invoke"));
            args.push(target.clone());
        },
        None => {},
    }
    args.push(String::from_str("--dir"));
    args.push(String::from_str(work_dir));
    args.push(String::from_str(module));
    let ghost prefix = args.deep_view();
    proof {
        assert(prefix =~~= invocation_spec(
            invoke.deep_view(),
            work_dir@,
            module@,
            Seq::<Seq<char>>::empty(),
        ));
    }
    let n = extra.len();
    let mut i: usize = 0;
    while i < n
        invariant
            n == extra@.len(),
            i <= n,
            args@.len() == prefix.len() + i,
            prefix == invocation_spec(
                invoke.deep_view(),
                work_dir@,
                module@,
                Seq::<Seq<char>>::empty(),
            ),
            forall|j: int| 0 <= j < prefix.len() ==> #[trigger] args@[j]@ == prefix[j],
            forall|j: int|
                prefix.len() <= j < prefix.len() + i ==> #[trigger] args@[j]@ == extra@[j
                    - prefix.len()]@,
        decreases n - i,
    {
        args.push(extra[i].clone());
        i = i + 1;
    }
    proof {
        assert(args.deep_view() =~~= invocation_spec(
            invoke.deep_view(),
            work_dir@,
            module@,
            extra.deep_view(),
        ));
    }
    args
}

/// Interpret the runtime's exit: success passes, a non-zero exit carries
/// the code the platform reported.
pub fn interpret_exit(success: bool, code: Option<i32>) -> (r: Result<(), Error>)
    ensures
        match r {
            Ok(_) => success,
            Err(e) => !success && e == Error::ExecutionExit(code),
        },
{
    if success {
        Ok(())
    } else {
        Err(Error::ExecutionExit(code))
    }
}

} // verus!
