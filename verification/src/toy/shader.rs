//! Assembly of the GPU program sources: the fixed vertex program for the
//! full-screen quad, the built-in default entry function, and the composed
//! fragment program that wraps a user entry function between the fixed
//! uniform preamble and the fixed trailer.

use vstd::prelude::*;
use crate::text::{spec_dec, u64_to_string};

verus! {

/// The fixed vertex program operating on the static full-screen quad.
pub const VERTEX: &'static str = "#version 330\nattribute vec2 in_pos;\nattribute vec2 in_uv;\n\nvarying lowp vec2 texcoord;\n\nvoid main() {\n    gl_Position = vec4(in_pos, 0, 1);\n    texcoord = in_uv;\n}\n";

/// The built-in default entry function: a time-varying colour ramp.
pub const MAIN_IMAGE: &'static str = "void mainImage( out vec4 fragColor, in vec2 fragCoord )\n{\n    // Normalized pixel coordinates (from 0 to 1)\n    vec2 uv = fragCoord/iResolution.xy;\n\n    // Time varying pixel color\n    vec3 col = 0.5 + 0.5*cos(iTime+uv.xyx+vec3(0,2,4));\n\n    // Output to screen\n    fragColor = vec4(col,1.0);\n}\n";

/// Head of every composed fragment program: version, varying, and the
/// uniform declarations every compiled shader consumes.
pub const FRAG_HEADER: &'static str = "#version 330\nvarying lowp vec2 texcoord;\n\nuniform vec3 iResolution;\nuniform vec4 iMouse;\nuniform float iTime;\nuniform float iTimeDelta;\nuniform int iFrame;\nuniform float iFrameRate;\n";

/// Prefix of one channel sampler declaration; the channel index follows.
pub const CHANNEL_DECL_PREFIX: &'static str = "uniform sampler2D iChannel";

/// Prefix of a channel sampler uniform name; the channel index follows.
pub const CHANNEL_NAME_PREFIX: &'static str = "iChannel";

/// Between the sampler declarations and the user entry function.
pub const FRAG_OUT: &'static str = "\nout vec4 outColor;\n\n// mainImage\n";

/// The fixed trailer: invokes the entry function with the fragment's
/// screen-space coordinate.
pub const FRAG_MAIN: &'static str = "\n\nvoid main() {\n    mainImage(outColor, gl_FragCoord.xy);\n}\n";

/// The sampler uniform name of the channel at an index: "iChannel" followed
/// by the index in decimal.
pub open spec fn spec_channel_name(i: nat) -> Seq<char> {
    CHANNEL_NAME_PREFIX@ + spec_dec(i)
}

/// The declaration line of the channel sampler at an index.
pub open spec fn spec_channel_decl(i: nat) -> Seq<char> {
    CHANNEL_DECL_PREFIX@ + spec_dec(i) + ";\n"@
}

/// The declaration lines for the first `n` channels, in index order.
pub open spec fn spec_channel_decls(n: nat) -> Seq<char>
    decreases n,
{
    if n == 0 {
        Seq::empty()
    } else {
        spec_channel_decls((n - 1) as nat) + spec_channel_decl((n - 1) as nat)
    }
}

/// The whole composed fragment program for an entry function and a number
/// of configured channels.
pub open spec fn spec_fragment_source(main_image: Seq<char>, channels: nat) -> Seq<char> {
    FRAG_HEADER@ + spec_channel_decls(channels) + FRAG_OUT@ + main_image + FRAG_MAIN@
}

/// The names of the uniform block entries, in the order the preamble
/// declares them; the host builds the GPU uniform layout from this list.
pub fn uniform_names() -> (r: Vec<&'static str>)
    ensures
        r@.len() == 6,
        r@[0]@ == "iResolution"@,
        r@[1]@ == "iMouse"@,
        r@[2]@ == "iTime"@,
        r@[3]@ == "iTimeDelta"@,
        r@[4]@ == "iFrame"@,
        r@[5]@ == "iFrameRate"@,
{
    let mut v: Vec<&'static str> = Vec::new();
    v.push("iResolution");
    v.push("iMouse");
    v.push("iTime");
    v.push("iTimeDelta");
    v.push("iFrame");
    v.push("iFrameRate");
    v
}

/// The sampler uniform name bound to the channel at an index.
pub fn channel_uniform_name(i: u64) -> (r: String)
    ensures
        r@ == spec_channel_name(i as nat),
{
    let mut s = String::from_str(CHANNEL_NAME_PREFIX);
    let d = u64_to_string(i);
    s.append(d.as_str());
    s
}

/// Wrap a shader entry function between the fixed preamble (with one
/// sampler declaration per configured channel) and the fixed trailer.
pub fn build_fragment_shader(main_image: &str, channel_count: usize) -> (r: String)
    ensures
        r@ == spec_fragment_source(main_image@, channel_count as nat),
{
    let mut s = String::from_str(FRAG_HEADER);
    let mut i: usize = 0;
    while i < channel_count
        invariant
            i <= channel_count,
            s@ == FRAG_HEADER@ + spec_channel_decls(i as nat),
        decreases channel_count - i,
    {
        s.append(CHANNEL_DECL_PREFIX);
        let d = u64_to_string(i as u64);
        s.append(d.as_str());
        s.append(";\n");
        i = i + 1;
        proof {
            assert(s@ =~= FRAG_HEADER@ + spec_channel_decls(i as nat));
        }
    }
    s.append(FRAG_OUT);
    s.append(main_image);
    s.append(FRAG_MAIN);
    proof {
        assert(s@ =~= spec_fragment_source(main_image@, channel_count as nat));
    }
    s
}

} // verus!
