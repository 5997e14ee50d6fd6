use vstd::prelude::*;

verus! {

/// The ambient execution context of a caller, reduced to what this core
/// reads from it: the identity of the calling plugin, if one is known.
///
/// The propagation mechanism itself lives outside this core; callers pass
/// the context they resolved into every operation that depends on it.
pub struct Context {
    /// The identity of the calling plugin, when the context carries one.
    pub plugin_id: Option<String>,
}

impl View for Context {
    type V = Option<Seq<char>>;

    open spec fn view(&self) -> Option<Seq<char>> {
        match self.plugin_id {
            Some(ref id) => Some(id@),
            None => None,
        }
    }
}

/// The identity under which a caller is authorized: the context's plugin
/// id, or the sentinel `"unknown"` when the context carries none.
pub open spec fn resolved_plugin_id(ctx: Option<Seq<char>>) -> Seq<char> {
    match ctx {
        Some(id) => id,
        None => "unknown"@,
    }
}

impl Context {
    /// A context that carries no caller identity.
    pub fn anonymous() -> (r: Context)
        ensures
            r@ is None,
    {
        Context { plugin_id: None }
    }

    /// A context for the plugin with the given identity.
    pub fn for_plugin(plugin_id: String) -> (r: Context)
        ensures
            r@ == Some(plugin_id@),
    {
        Context { plugin_id: Some(plugin_id) }
    }

    /// The identity this context resolves to: its plugin id, or `"unknown"`.
    pub fn resolve_plugin_id(&self) -> (r: String)
        ensures
            r@ == resolved_plugin_id(self@),
    {
        match self.plugin_id {
            Some(ref id) => id.clone(),
            None => String::from_str("unknown"),
        }
    }
}

} // verus!
