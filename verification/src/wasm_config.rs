use vstd::prelude::*;
pub use crate::config::Stdout;
use crate::text::string_from;

verus! {

/// The configuration of a run of one wasm file: the file, the root
/// directory and where the output goes.
pub struct BlocklessConfig {
    wasm_file: String,
    root_path: Option<String>,
    stdout: Stdout,
}

impl BlocklessConfig {
    pub closed spec fn wasm_file_view(&self) -> Seq<char> {
        self.wasm_file@
    }

    pub closed spec fn root_path_view(&self) -> Option<Seq<char>> {
        match self.root_path {
            Some(r) => Some(r@),
            None => None,
        }
    }

    pub closed spec fn stdout_view(&self) -> Stdout {
        self.stdout
    }

    pub fn wasm_file_ref(&self) -> (r: &str)
        ensures
            r@ == self.wasm_file_view(),
    {
        self.wasm_file.as_str()
    }

    pub fn root_path(&mut self, r: &str)
        ensures
            final(self).root_path_view() == Some(r@),
            final(self).wasm_file_view() == old(self).wasm_file_view(),
            final(self).stdout_view() == old(self).stdout_view(),
    {
        self.root_path = Some(string_from(r));
    }

    pub fn root_path_ref(&self) -> (r: Option<&str>)
        ensures
            match r {
                Some(x) => self.root_path_view() == Some(x@),
                None => self.root_path_view() is None,
            },
    {
        match &self.root_path {
            Some(x) => Some(x.as_str()),
            None => None,
        }
    }

    /// A configuration running the given file, with no root directory and
    /// the runtime's own output.
    pub fn new(wasm_file: &str) -> (r: BlocklessConfig)
        ensures
            r.wasm_file_view() == wasm_file@,
            r.root_path_view() is None,
            r.stdout_view() is Inherit,
    {
        BlocklessConfig { wasm_file: string_from(wasm_file), root_path: None, stdout: Stdout::Inherit }
    }

    /// Sets where the output goes; a file only takes effect under a root
    /// directory.
    pub fn stdout(&mut self, stdout: Stdout)
        ensures
            final(self).stdout_view() == stdout,
            final(self).wasm_file_view() == old(self).wasm_file_view(),
            final(self).root_path_view() == old(self).root_path_view(),
    {
        self.stdout = stdout;
    }

    pub fn stdout_ref(&self) -> (r: &Stdout)
        ensures
            *r == self.stdout_view(),
    {
        &self.stdout
    }
}

} // verus!
