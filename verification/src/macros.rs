//! The exports by which a guest's init hooks and web handler are found.
//!
//! A function that is marked as an init hook, or as the web handler, is
//! exported under a name made from its own, so that the host finds it by
//! the name's beginning.

use vstd::prelude::*;

verus! {

/// Why a function cannot be an init hook.
#[derive(Clone, Copy, Debug, PartialEq, Eq)]
pub enum HookError {
    /// It has generic parameters.
    Generics,
    /// It takes parameters.
    Params,
    /// It gives a value back.
    ReturnValue,
}

impl HookError {
    /// What the user is told.
    pub fn message(self) -> (s: &'static str)
        ensures
            s@ == match self {
                HookError::Generics => "no generics allowed on init hook"@,
                HookError::Params => "no params allowed on init hook"@,
                HookError::ReturnValue => "no return value allowed on init hook"@,
            },
    {
        match self {
            HookError::Generics => "no generics allowed on init hook",
            HookError::Params => "no params allowed on init hook",
            HookError::ReturnValue => "no return value allowed on init hook",
        }
    }
}

/// What is wrong with a function as an init hook, each fault once, in
/// the order of a signature: generics, parameters, return value.
pub open spec fn faults(generics: nat, params: nat, has_output: bool) -> Seq<HookError> {
    (if generics > 0 {
        seq![HookError::Generics]
    } else {
        Seq::empty()
    }) + (if params > 0 {
        seq![HookError::Params]
    } else {
        Seq::empty()
    }) + (if has_output {
        seq![HookError::ReturnValue]
    } else {
        Seq::empty()
    })
}

/// The export under which the init hook `func_name` is found.
pub open spec fn init_hook_name(func_name: Seq<char>) -> Seq<char> {
    "_edgedb_sdk_init_"@ + func_name
}

/// The export under which the registration of the web handler
/// `func_name` is found.
pub open spec fn web_handler_name(func_name: Seq<char>) -> Seq<char> {
    "_edgedb_sdk_init_web_handler_"@ + func_name
}

/// The name of the export that registers the function `func_name` as the
/// guest's web handler.
pub fn web_handler(func_name: &str) -> (hook_name: String)
    ensures
        hook_name@ == web_handler_name(func_name@),
{
    let mut hook_name = "_edgedb_sdk_init_web_handler_".to_owned();
    hook_name.append(func_name);
    hook_name
}

/// The name of the export that runs the function `func_name` when the
/// guest is set up, or what keeps the function from being an init hook:
/// a hook has no generic parameters, takes nothing and gives nothing back.
pub fn init_hook(func_name: &str, generics: usize, params: usize, has_output: bool) -> (r: Result<
    String,
    Vec<HookError>,
>)
    ensures
        match r {
            Ok(hook_name) => faults(generics as nat, params as nat, has_output).len() == 0
                && hook_name@ == init_hook_name(func_name@),
            Err(errors) => errors@.len() > 0 && errors@ == faults(
                generics as nat,
                params as nat,
                has_output,
            ),
        },
{
    let mut errors: Vec<HookError> = Vec::new();
    if generics > 0 {
        errors.push(HookError::Generics);
    }
    if params > 0 {
        errors.push(HookError::Params);
    }
    if has_output {
        errors.push(HookError::ReturnValue);
    }
    if errors.len() > 0 {
        return Err(errors);
    }
    let mut hook_name = "_edgedb_sdk_init_".to_owned();
    hook_name.append(func_name);
    Ok(hook_name)
}

/// The host takes the export of every init hook, and of the web
/// handler's registration, for an init hook.
pub proof fn lemma_hooks_are_found(func_name: Seq<char>)
    ensures
        crate::server::worker::init_prefix().is_prefix_of(init_hook_name(func_name)),
        crate::server::worker::init_prefix().is_prefix_of(web_handler_name(func_name)),
{
    reveal_strlit("_edgedb_sdk_init_");
    reveal_strlit("_edgedb_sdk_init_web_handler_");
}

} // verus!
