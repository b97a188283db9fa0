use vstd::prelude::*;

verus! {

/// An argument of a script's `add_system` call, as the host reads it: a
/// script function or a string, each with what the system record keeps of
/// it, or any other value.
#[derive(Debug)]
pub enum ScriptArg {
    /// A script function, known by the name of its type.
    Function { type_string: String },
    /// A string.
    Str(String),
    /// Any other value, known by the name of its type.
    Other { type_string: String },
}

/// A system that a script asked for: the function to run and the names of
/// the components that its query reads.
#[derive(Debug)]
pub struct KotoSystem {
    pub fn_name: String,
    pub query_data_components: Vec<String>,
}

/// Why an `add_system` call was refused.
#[derive(Debug, Clone, Copy, PartialEq, Eq, Structural)]
pub enum SystemArgError {
    /// The call had no arguments.
    MissingFunction,
    /// The first argument is not a script function.
    NotAFunction,
    /// The argument at `index` (1 or more) is not a string.
    NotAString { index: usize },
}

/// Whether an argument is a string.
pub open spec fn is_str_arg(a: ScriptArg) -> bool {
    a is Str
}

/// The component names that a well-formed argument list asks for: the text
/// of every argument after the first.
pub open spec fn component_names(args: Seq<ScriptArg>) -> Seq<Seq<char>>
    recommends
        args.len() >= 1,
        forall|i: int| 1 <= i < args.len() ==> #[trigger] is_str_arg(args[i]),
{
    args.subrange(1, args.len() as int).map_values(|a: ScriptArg| a->Str_0@)
}

/// Whether argument `i` is the first argument after the function that is
/// not a string.
pub open spec fn first_non_str(args: Seq<ScriptArg>, i: int) -> bool {
    &&& 1 <= i < args.len()
    &&& !is_str_arg(args[i])
    &&& forall|j: int| 1 <= j < i ==> #[trigger] is_str_arg(args[j])
}

/// Reads the arguments of `add_system(function, component, ...)` into a
/// system record. The first argument must be a script function and every
/// later one a string naming a component.
pub fn parse_system_args(args: &Vec<ScriptArg>) -> (r: Result<KotoSystem, SystemArgError>)
    ensures
        match r {
            Err(SystemArgError::MissingFunction) => args@.len() == 0,
            Err(SystemArgError::NotAFunction) => args@.len() >= 1 && !(args@[0] is Function),
            Err(SystemArgError::NotAString { index }) => {
                &&& args@.len() >= 1
                &&& args@[0] is Function
                &&& first_non_str(args@, index as int)
            },
            Ok(sys) => {
                &&& args@.len() >= 1
                &&& args@[0] is Function
                &&& forall|i: int| 1 <= i < args@.len() ==> #[trigger] is_str_arg(args@[i])
                &&& sys.fn_name@ == args@[0]->Function_type_string@
                &&& sys.query_data_components@.map_values(|s: String| s@) == component_names(args@)
            },
        },
{
    if args.len() == 0 {
        return Err(SystemArgError::MissingFunction);
    }
    let fn_name = match &args[0] {
        ScriptArg::Function { type_string } => type_string.clone(),
        _ => {
            return Err(SystemArgError::NotAFunction);
        },
    };
    let mut query_data_components: Vec<String> = Vec::new();
    let mut i: usize = 1;
    while i < args.len()
        invariant
            1 <= i <= args@.len(),
            args@[0] is Function,
            forall|j: int| 1 <= j < i ==> #[trigger] is_str_arg(args@[j]),
            query_data_components@.map_values(|s: String| s@) =~= args@.subrange(
                1,
                i as int,
            ).map_values(|a: ScriptArg| a->Str_0@),
        decreases args@.len() - i,
    {
        match &args[i] {
            ScriptArg::Str(s) => {
                let ghost before = query_data_components@;
                query_data_components.push(s.clone());
                proof {
                    let done = args@.subrange(1, i as int).map_values(|a: ScriptArg| a->Str_0@);
                    let next = args@.subrange(1, i + 1).map_values(|a: ScriptArg| a->Str_0@);
                    assert(next =~= done.push(s@));
                    assert(query_data_components@.map_values(|s: String| s@) =~= before.map_values(
                        |s: String| s@,
                    ).push(s@));
                }
            },
            _ => {
                return Err(SystemArgError::NotAString { index: i });
            },
        }
        i = i + 1;
    }
    Ok(KotoSystem { fn_name, query_data_components })
}

} // verus!
