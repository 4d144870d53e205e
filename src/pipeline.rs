use vstd::prelude::*;

verus! {

/// One step of the build pipeline; each is run by an outside tool that
/// reports success or a failure cause.
#[derive(Clone, Copy, Debug, PartialEq, Eq, Structural)]
pub enum Stage {
    /// empties the output directory
    Clean,
    /// copies the asset tree into the site
    AssetSync,
    /// compiles the stylesheet
    StyleCompile,
    /// compiles the client to WASM
    ClientCompile,
    /// writes the HTML page, or the Rust that embeds it
    ArtifactGen,
    /// compiles the server binary
    ServerCompile,
}

/// The stages of a whole pipeline run, in order. Asset sync runs only when
/// asked for; a client-side-only build has no server to compile.
pub open spec fn full_plan(csr: bool, copy_assets: bool) -> Seq<Stage> {
    seq![Stage::Clean] + (if copy_assets {
        seq![Stage::AssetSync]
    } else {
        Seq::<Stage>::empty()
    }) + seq![Stage::StyleCompile, Stage::ClientCompile, Stage::ArtifactGen] + (if csr {
        Seq::<Stage>::empty()
    } else {
        seq![Stage::ServerCompile]
    })
}

/// The stages that a stylesheet change reruns: no code is compiled.
pub open spec fn style_plan() -> Seq<Stage> {
    seq![Stage::StyleCompile, Stage::ArtifactGen]
}

/// The stages that an asset change reruns.
pub open spec fn assets_plan() -> Seq<Stage> {
    seq![Stage::AssetSync]
}

/// The stages of a whole pipeline run.
pub fn full_stages(csr: bool, copy_assets: bool) -> (r: Vec<Stage>)
    ensures
        r@ == full_plan(csr, copy_assets),
{
    let mut r: Vec<Stage> = Vec::new();
    r.push(Stage::Clean);
    if copy_assets {
        r.push(Stage::AssetSync);
    }
    r.push(Stage::StyleCompile);
    r.push(Stage::ClientCompile);
    r.push(Stage::ArtifactGen);
    if !csr {
        r.push(Stage::ServerCompile);
    }
    assert(r@ =~= full_plan(csr, copy_assets));
    r
}

/// The stages that a stylesheet change reruns.
pub fn style_stages() -> (r: Vec<Stage>)
    ensures
        r@ == style_plan(),
{
    let r = vec![Stage::StyleCompile, Stage::ArtifactGen];
    assert(r@ =~= style_plan());
    r
}

/// The stages that an asset change reruns.
pub fn assets_stages() -> (r: Vec<Stage>)
    ensures
        r@ == assets_plan(),
{
    let r = vec![Stage::AssetSync];
    assert(r@ =~= assets_plan());
    r
}

} // verus!
