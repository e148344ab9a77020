use vstd::prelude::*;

verus! {

/// The command line of the inventory tool.
#[derive(Debug, Clone)]
pub struct Cli {
    /// One or more machine names, or a regular expression.
    pub vm_operand: Vec<String>,
    /// Log in and exit.
    pub perform_login: bool,
    /// Clear the stored credentials and exit.
    pub perform_logout: bool,
    /// Authenticate as a service principal (client credentials).
    pub use_service_principal: bool,
    /// Authenticate interactively (device code).
    pub interactive_login: bool,
    /// Bypass the result cache.
    pub no_cache: bool,
    /// Treat the first operand as a regular expression.
    pub match_regexp: bool,
    /// Ask for each machine's extensions.
    pub show_extensions: bool,
}

impl Default for Cli {
    fn default() -> (r: Self)
        ensures
            r.vm_operand@.len() == 1,
            r.vm_operand@[0]@.len() == 0,
            !r.match_regexp,
            !r.show_extensions,
            !r.perform_login,
            !r.perform_logout,
            !r.no_cache,
            !r.use_service_principal,
            r.interactive_login,
    {
        let mut vm_operand: Vec<String> = Vec::new();
        vm_operand.push(String::new());
        Cli {
            vm_operand,
            match_regexp: false,
            show_extensions: false,
            perform_login: false,
            perform_logout: false,
            no_cache: false,
            use_service_principal: false,
            interactive_login: true,
        }
    }
}

} // verus!
