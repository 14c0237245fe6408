use vstd::prelude::*;
use crate::document::{brush_plan, DrawStatus, Failure, Handle, Rect, TargetRequest, TextDocument};

verus! {

/// Releasing the device resources twice ends where releasing them once
/// does, and the second release gives back no handle.
pub proof fn lemma_release_idempotent(doc: TextDocument)
    requires
        doc.wf(),
    ensures
        doc.without_device().without_device() == doc.without_device(),
        doc.without_device().device_release_list().len() == 0,
        !doc.without_device().has_device_resources(),
{
}

/// Render target and brush come as a pair. Without a render target no brush
/// is asked for and the document gains neither; once both are made, both are
/// held; a failed brush leaves the document without either.
pub proof fn lemma_device_pairing(doc: TextDocument, render_target: Handle, brush: Option<Handle>)
    requires
        doc.live(),
        doc.dpi_ready(),
        !doc.has_device_resources(),
    ensures
        brush_plan(None) == Err::<crate::document::BrushRequest, Failure>(Failure::RenderTarget),
        brush_plan(Some(render_target)) is Ok,
        doc.with_device(render_target, brush).live(),
        brush.is_some() ==> doc.with_device(render_target, brush).resources.render_target == Some(
            render_target,
        ) && doc.with_device(render_target, brush).resources.brush == brush,
        brush.is_none() ==> !doc.with_device(render_target, brush).has_device_resources()
            && doc.with_device(render_target, brush).resources.brush.is_none(),
{
}

/// After a draw batch that reports a lost device, the next paint makes the
/// device resources again from scratch: a new render target the size of the
/// client area, on the same factory and window. The device-independent
/// objects survive the loss.
pub proof fn lemma_device_loss_recovery(doc: TextDocument, client: Rect)
    requires
        doc.live(),
        doc.has_device_resources(),
        client.wf(),
    ensures
        doc.after_draw(DrawStatus::RecreateTarget).live(),
        !doc.after_draw(DrawStatus::RecreateTarget).has_device_resources(),
        doc.after_draw(DrawStatus::RecreateTarget).d2d1_factory == doc.d2d1_factory,
        doc.after_draw(DrawStatus::RecreateTarget).independent_release_list()
            == doc.independent_release_list(),
        doc.after_draw(DrawStatus::RecreateTarget).hwnd == doc.hwnd,
        doc.d2d1_factory.is_some() ==> doc.after_draw(DrawStatus::RecreateTarget).device_plan(client)
            == Ok::<Option<TargetRequest>, Failure>(
            Some(
                TargetRequest {
                    factory: doc.d2d1_factory.unwrap(),
                    hwnd: doc.hwnd,
                    width: (client.right - client.left) as u32,
                    height: (client.bottom - client.top) as u32,
                },
            ),
        ),
{
}

/// Teardown gives back the device handles before any device-independent
/// one, and leaves a document that no operation accepts any more.
pub proof fn lemma_destroy_order(doc: TextDocument)
    requires
        doc.live(),
    ensures
        ({
            let released = doc.device_release_list() + doc.independent_release_list();
            let k = doc.device_release_list().len() as int;
            &&& released.subrange(0, k) == doc.device_release_list()
            &&& released.subrange(k, released.len() as int) == doc.independent_release_list()
        }),
        !doc.torn_down().live(),
        doc.torn_down().all_released(),
        doc.torn_down().wf(),
{
    let released = doc.device_release_list() + doc.independent_release_list();
    let k = doc.device_release_list().len() as int;
    assert(released.subrange(0, k) =~= doc.device_release_list());
    assert(released.subrange(k, released.len() as int) =~= doc.independent_release_list());
}

} // verus!
