use vstd::prelude::*;
use crate::code::{classify, code_of, supported_len, ClassificationError, Code};
use crate::product::{ConfigProduct, Product};
use crate::render::{image_file_name, jpeg_extension, render, render_outcome, RenderError, RenderStyle};

verus! {

/// A product together with its rendered barcode image and the file name
/// the image is to be stored under.
#[derive(Debug, Clone)]
pub struct RenderedProduct {
    pub product: Product,
    pub file_name: String,
    pub image: Vec<u8>,
}

/// Why a batch of products could not be prepared. The batch stops at the
/// first product that fails.
#[derive(Debug, Clone)]
pub enum PipelineError {
    /// A barcode has a length no supported symbology uses.
    Classification(ClassificationError),
    /// A barcode could not be rendered: the barcode and the reason.
    Render(Code, RenderError),
}

/// The raw barcode classifies and its image renders.
pub open spec fn item_ok(item: ConfigProduct, style: RenderStyle) -> bool {
    supported_len(item.barcode@.len() as int) && render_outcome(code_of(item.barcode), style) is Ok
}

/// Every item of the batch classifies and renders.
pub open spec fn batch_ok(items: Seq<ConfigProduct>, style: RenderStyle) -> bool {
    forall|i: int| 0 <= i < items.len() ==> item_ok(#[trigger] items[i], style)
}

/// A single item that fails to classify or to render fails the whole batch:
/// no product of it is handed on to be laid out.
pub proof fn lemma_one_failure_fails_batch(items: Seq<ConfigProduct>, style: RenderStyle, k: int)
    requires
        0 <= k < items.len(),
        !item_ok(items[k], style),
    ensures
        !batch_ok(items, style),
{
}

/// `e` is the error that the item `item` fails with.
pub open spec fn item_error(item: ConfigProduct, style: RenderStyle, e: PipelineError) -> bool {
    if !supported_len(item.barcode@.len() as int) {
        e matches PipelineError::Classification(ClassificationError::UnsupportedLength(s, n))
            && s@ == item.barcode@ && n == item.barcode@.len()
    } else {
        e matches PipelineError::Render(c, re)
            && c == code_of(item.barcode)
            && render_outcome(c, style) == Err::<Seq<u8>, RenderError>(re)
    }
}

/// `out` is the prepared form of `item`.
pub open spec fn prepared_from(out: RenderedProduct, item: ConfigProduct, style: RenderStyle) -> bool {
    &&& out.product.made_from(item.barcode@, item.name@)
    &&& out.product.barcode == code_of(item.barcode)
    &&& render_outcome(out.product.barcode, style) == Ok::<Seq<u8>, RenderError>(out.image@)
    &&& out.file_name@ == out.product.barcode.display_text() + jpeg_extension()
}

/// Classifies and renders every product, in order, stopping at the first
/// failure: either every product is prepared or none is handed on.
pub fn prepare_products(items: &Vec<ConfigProduct>, style: &RenderStyle) -> (r: Result<
    Vec<RenderedProduct>,
    PipelineError,
>)
    requires
        style.wf(),
    ensures
        r is Ok <==> batch_ok(items@, *style),
        r matches Ok(v) ==> v@.len() == items@.len() && forall|i: int|
            0 <= i < items@.len() ==> prepared_from(#[trigger] v@[i], items@[i], *style),
        r matches Err(e) ==> exists|k: int|
            0 <= k < items@.len() && !item_ok(#[trigger] items@[k], *style) && item_error(
                items@[k],
                *style,
                e,
            ) && forall|j: int| 0 <= j < k ==> item_ok(#[trigger] items@[j], *style),
{
    let mut out: Vec<RenderedProduct> = Vec::new();
    let mut i: usize = 0;
    while i < items.len()
        invariant
            style.wf(),
            i <= items@.len(),
            out@.len() == i,
            forall|j: int| 0 <= j < i ==> item_ok(#[trigger] items@[j], *style),
            forall|j: int| 0 <= j < i ==> prepared_from(#[trigger] out@[j], items@[j], *style),
        decreases items@.len() - i,
    {
        let item = &items[i];
        let barcode = match classify(item.barcode.clone()) {
            Ok(c) => c,
            Err(e) => {
                return Err(PipelineError::Classification(e));
            },
        };
        let image = match render(&barcode, style) {
            Ok(bytes) => bytes,
            Err(e) => {
                return Err(PipelineError::Render(barcode, e));
            },
        };
        let file_name = image_file_name(&barcode);
        let product = Product { barcode, name: item.name.clone() };
        out.push(RenderedProduct { product, file_name, image });
        i = i + 1;
    }
    Ok(out)
}

} // verus!
