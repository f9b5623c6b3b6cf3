use vstd::prelude::*;

verus! {

/// The engine's result code for success; every other code is a failure.
pub const ISC_R_SUCCESS: u32 = 0;

/// Why a parser could not be had, or a parse gave no object.
#[derive(Clone, Copy, PartialEq, Eq, Structural, Debug)]
pub enum ParserError {
    /// The engine could not allocate parser state.
    Creation,
    /// The grammar rejected the input, or the input could not be read.
    Parse,
}

/// Owns the engine's parser state, held as the handle `H` that the engine
/// gave out.
pub struct IscParser<H> {
    isc_parser: H,
}

/// The result of a successful parse. It borrows the parser that made it, as
/// it can only be destroyed through that parser.
pub struct Obj<'a, H, O> {
    cfg_obj: O,
    parser: &'a IscParser<H>,
}

impl<H> IscParser<H> {
    pub closed spec fn spec_handle(&self) -> H {
        self.isc_parser
    }

    /// Takes over the parser state `handle` that the engine's create call
    /// made with result code `ret`; fails unless that call succeeded.
    pub fn new(handle: H, ret: u32) -> (r: Result<IscParser<H>, ParserError>)
        ensures
            r is Ok <==> ret == ISC_R_SUCCESS,
            r matches Ok(p) ==> p.spec_handle() == handle,
            r matches Err(e) ==> e == ParserError::Creation,
    {
        if ret == ISC_R_SUCCESS {
            Ok(IscParser { isc_parser: handle })
        } else {
            Err(ParserError::Creation)
        }
    }

    /// The engine's parser state, for calls into the engine.
    pub fn as_ref(&self) -> (r: &H)
        ensures
            *r == self.spec_handle(),
    {
        &self.isc_parser
    }

    /// What a parse call that ended with `ret` and produced `obj` yields: the
    /// object, bound to this parser, when the call succeeded.
    pub fn parse_result<'a, O>(&'a self, ret: u32, obj: O) -> (r: Result<
        Obj<'a, H, O>,
        ParserError,
    >)
        ensures
            r is Ok <==> ret == ISC_R_SUCCESS,
            r matches Ok(o) ==> o.spec_cfg_obj() == obj && o.spec_parser() == self,
            r matches Err(e) ==> e == ParserError::Parse,
    {
        if ret == ISC_R_SUCCESS {
            Ok(Obj::new(self, obj))
        } else {
            Err(ParserError::Parse)
        }
    }
}

impl<'a, H, O> Obj<'a, H, O> {
    pub closed spec fn spec_cfg_obj(&self) -> O {
        self.cfg_obj
    }

    pub closed spec fn spec_parser(&self) -> &'a IscParser<H> {
        self.parser
    }

    pub fn new(parser: &'a IscParser<H>, cfg_obj: O) -> (r: Obj<'a, H, O>)
        ensures
            r.spec_cfg_obj() == cfg_obj,
            r.spec_parser() == parser,
    {
        Obj { cfg_obj, parser }
    }

    /// The validated tree, for calls into the engine.
    pub fn cfg_obj(&self) -> (r: &O)
        ensures
            *r == self.spec_cfg_obj(),
    {
        &self.cfg_obj
    }

    /// The parser that owns the tree and must destroy it.
    pub fn parser(&self) -> (r: &'a IscParser<H>)
        ensures
            r == self.spec_parser(),
    {
        self.parser
    }

    /// Whether the semantic checks passed, given the result code of the
    /// engine's check call over this object.
    pub fn check(&self, ret: u32) -> (r: bool)
        ensures
            r == (ret == ISC_R_SUCCESS),
    {
        ret == ISC_R_SUCCESS
    }
}

} // verus!
