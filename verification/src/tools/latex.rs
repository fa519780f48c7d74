//! The descriptor of the LaTeX rendering tool. Rendering an expression to
//! an image and posting it happen at the process edge; the runtime resolves
//! and schedules the tool through this descriptor.

use vstd::prelude::*;
use vstd::string::StringExecFns;

verus! {

/// Renders LaTeX expressions to images for the chat platform.
#[derive(Debug)]
pub struct LatexExprRenderTool;

impl LatexExprRenderTool {
    pub fn new() -> (r: LatexExprRenderTool) {
        LatexExprRenderTool {  }
    }

    /// The name the registry resolves this tool under.
    pub fn name(&self) -> (r: String)
        ensures
            r@ == "latex_expr_render"@,
    {
        String::from_str("latex_expr_render")
    }

    /// The description advertised to the model.
    pub fn description(&self) -> (r: String)
        ensures
            r@ == "Render LaTeX expressions to images and send to Discord."@,
    {
        String::from_str("Render LaTeX expressions to images and send to Discord.")
    }

    /// The JSON schema of the accepted arguments.
    pub fn json_schema(&self) -> (r: String)
        ensures
            r@ == "{\"type\":\"object\",\"properties\":{\"channel_id\":{\"type\":\"string\",\"description\":\"ID of the channel to send the rendered image to.\"},\"expr\":{\"type\":\"string\",\"description\":\"The LaTeX expression to render.\"}},\"required\":[\"channel_id\",\"expr\"]}"@,
    {
        String::from_str(
            "{\"type\":\"object\",\"properties\":{\"channel_id\":{\"type\":\"string\",\"description\":\"ID of the channel to send the rendered image to.\"},\"expr\":{\"type\":\"string\",\"description\":\"The LaTeX expression to render.\"}},\"required\":[\"channel_id\",\"expr\"]}",
        )
    }
}

} // verus!
