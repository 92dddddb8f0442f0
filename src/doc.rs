use vstd::prelude::*;

verus! {

/// The identifier of a document, as the document subsystem names it.
#[derive(Clone, Debug)]
pub struct DocIdentifier {
    pub doc_id: String,
}

impl View for DocIdentifier {
    type V = Seq<char>;

    open spec fn view(&self) -> Seq<char> {
        self.doc_id@
    }
}

} // verus!
