//! The on-disk channel configuration format (the `toy.toml` file).
//!
//! The library owns this format: it writes a canonical text for a channel
//! list, and reads exactly that text back. Each channel is three lines: a
//! `[[channels]]` header, a `source` line naming a built-in or a path, and
//! a `config` line with the texture settings. The reader is strict; any
//! other text is a parse error, which callers treat as recoverable by
//! falling back to the default configuration.

use vstd::prelude::*;
use crate::text::str_eq;
use crate::toy::{
    BuiltinName, Channel, ChannelConfig, ChannelModel, ChannelSource, Config, SourceModel,
    TextureFilter, TextureWrap,
};

verus! {

/// Header line opening one channel entry.
pub const CHANNEL_HEADER: &'static str = "[[channels]]\n";

/// The whole source line of the one built-in channel.
pub const SOURCE_BUILTIN_NOISE: &'static str = "source = \"builtin:rgba_noise_small\"";

/// Opening of a path source line; the path follows.
pub const SOURCE_PATH_OPEN: &'static str = "source = { path = \"";

/// Closing of a path source line.
pub const SOURCE_PATH_CLOSE: &'static str = "\" }";

/// Opening of a config line; the vflip value follows.
pub const CONFIG_OPEN: &'static str = "config = { vflip = ";

/// vflip on; the filter name follows.
pub const VFLIP_TRUE: &'static str = "true, filter = \"";

/// vflip off; the filter name follows.
pub const VFLIP_FALSE: &'static str = "false, filter = \"";

/// Nearest filtering; the wrap mode follows.
pub const FILTER_NEAREST: &'static str = "nearest\", wrap = \"";

/// Linear filtering; the wrap mode follows.
pub const FILTER_LINEAR: &'static str = "linear\", wrap = \"";

/// Mipmap filtering; the wrap mode follows.
pub const FILTER_MIPMAP: &'static str = "mipmap\", wrap = \"";

/// Repeat wrapping, closing the config line.
pub const WRAP_REPEAT: &'static str = "repeat\" }";

/// Clamp wrapping, closing the config line.
pub const WRAP_CLAMP: &'static str = "clamp\" }";

/// Line separator.
pub const NL: &'static str = "\n";

/// The text spans no line break.
pub open spec fn spec_no_line_break(p: Seq<char>) -> bool {
    forall|k: int| 0 <= k < p.len() ==> p[k] != '\n'
}

/// A channel can be written on its canonical lines only if a configured
/// path spans no line break.
pub open spec fn spec_channel_wf(c: ChannelModel) -> bool {
    match c.source {
        SourceModel::Builtin { name } => true,
        SourceModel::FromDisk { path } => spec_no_line_break(path),
    }
}

/// Every channel of the list can be written on its canonical lines.
pub open spec fn spec_channels_wf(cs: Seq<ChannelModel>) -> bool {
    forall|k: int| 0 <= k < cs.len() ==> spec_channel_wf(#[trigger] cs[k])
}

/// The canonical source line body (without the line break).
pub open spec fn spec_render_source(s: SourceModel) -> Seq<char> {
    match s {
        SourceModel::Builtin { name } => match name {
            BuiltinName::RgbaNoiseSmall => SOURCE_BUILTIN_NOISE@,
        },
        SourceModel::FromDisk { path } => SOURCE_PATH_OPEN@ + path + SOURCE_PATH_CLOSE@,
    }
}

/// The canonical config line body (without the line break).
pub open spec fn spec_render_config_line(c: ChannelConfig) -> Seq<char> {
    match c {
        ChannelConfig::Texture { vflip, filter, wrap } => CONFIG_OPEN@ + (if vflip {
            VFLIP_TRUE@
        } else {
            VFLIP_FALSE@
        }) + (match filter {
            TextureFilter::Nearest => FILTER_NEAREST@,
            TextureFilter::Linear => FILTER_LINEAR@,
            TextureFilter::Mipmap => FILTER_MIPMAP@,
        }) + (match wrap {
            TextureWrap::Repeat => WRAP_REPEAT@,
            TextureWrap::Clamp => WRAP_CLAMP@,
        }),
    }
}

/// The three canonical lines of one channel entry.
pub open spec fn spec_render_channel(c: ChannelModel) -> Seq<char> {
    CHANNEL_HEADER@ + spec_render_source(c.source) + NL@ + spec_render_config_line(c.config) + NL@
}

/// The canonical text of a whole channel list.
pub open spec fn spec_render_channels(cs: Seq<ChannelModel>) -> Seq<char>
    decreases cs.len(),
{
    if cs.len() == 0 {
        Seq::empty()
    } else {
        spec_render_channel(cs[0]) + spec_render_channels(cs.drop_first())
    }
}

/// Whether `p` is a prefix of `s`.
pub open spec fn spec_starts_with(s: Seq<char>, p: Seq<char>) -> bool {
    p.len() <= s.len() && s.take(p.len() as int) == p
}

/// Index of the first line break, if any.
pub open spec fn spec_find_nl(s: Seq<char>) -> Option<nat>
    decreases s.len(),
{
    if s.len() == 0 {
        None
    } else if s[0] == '\n' {
        Some(0)
    } else {
        match spec_find_nl(s.drop_first()) {
            None => None,
            Some(i) => Some((i + 1) as nat),
        }
    }
}

/// What `spec_find_nl` finds is a line break, and the first one.
pub proof fn lemma_find_nl_is_first(s: Seq<char>)
    ensures
        match spec_find_nl(s) {
            None => forall|k: int| 0 <= k < s.len() ==> s[k] != '\n',
            Some(i) => i < s.len() && s[i as int] == '\n' && (forall|k: int|
                0 <= k < i ==> s[k] != '\n'),
        },
    decreases s.len(),
{
    if s.len() == 0 {
    } else if s[0] == '\n' {
    } else {
        let t = s.drop_first();
        lemma_find_nl_is_first(t);
        match spec_find_nl(t) {
            None => {
                assert forall|k: int| 0 <= k < s.len() implies s[k] != '\n' by {
                    if k > 0 {
                        assert(s[k] == t[k - 1]);
                    }
                }
            },
            Some(i) => {
                assert(s[i as int + 1] == t[i as int]);
                assert forall|k: int| 0 <= k < i + 1 implies s[k] != '\n' by {
                    if k > 0 {
                        assert(s[k] == t[k - 1]);
                    }
                }
            },
        }
    }
}

/// A line break at the first position where none came earlier is the one
/// `spec_find_nl` finds.
pub proof fn lemma_find_nl_at(s: Seq<char>, m: nat)
    requires
        m < s.len(),
        s[m as int] == '\n',
        forall|k: int| 0 <= k < m ==> s[k] != '\n',
    ensures
        spec_find_nl(s) == Some(m),
    decreases m,
{
    if m == 0 {
    } else {
        assert(s[0] != '\n');
        lemma_find_nl_at(s.drop_first(), (m - 1) as nat);
    }
}

/// With no line break at all, `spec_find_nl` finds none.
pub proof fn lemma_find_nl_none(s: Seq<char>)
    requires
        forall|k: int| 0 <= k < s.len() ==> s[k] != '\n',
    ensures
        spec_find_nl(s) == None::<nat>,
    decreases s.len(),
{
    if s.len() == 0 {
    } else {
        lemma_find_nl_none(s.drop_first());
    }
}

/// Meaning of a source line body: the one built-in, or a quoted path.
pub open spec fn spec_parse_source_line(l: Seq<char>) -> Option<SourceModel> {
    if l == SOURCE_BUILTIN_NOISE@ {
        Some(SourceModel::Builtin { name: BuiltinName::RgbaNoiseSmall })
    } else if spec_starts_with(l, SOURCE_PATH_OPEN@) && l.len() >= SOURCE_PATH_OPEN@.len()
        + SOURCE_PATH_CLOSE@.len() && l.skip(l.len() - SOURCE_PATH_CLOSE@.len() as int)
        == SOURCE_PATH_CLOSE@ {
        Some(
            SourceModel::FromDisk {
                path: l.subrange(
                    SOURCE_PATH_OPEN@.len() as int,
                    l.len() - SOURCE_PATH_CLOSE@.len() as int,
                ),
            },
        )
    } else {
        None
    }
}

/// Meaning of the vflip field and what follows it.
pub open spec fn spec_parse_vflip(r: Seq<char>) -> Option<(bool, Seq<char>)> {
    if spec_starts_with(r, VFLIP_TRUE@) {
        Some((true, r.skip(VFLIP_TRUE@.len() as int)))
    } else if spec_starts_with(r, VFLIP_FALSE@) {
        Some((false, r.skip(VFLIP_FALSE@.len() as int)))
    } else {
        None
    }
}

/// Meaning of the filter field and what follows it.
pub open spec fn spec_parse_filter(r: Seq<char>) -> Option<(TextureFilter, Seq<char>)> {
    if spec_starts_with(r, FILTER_NEAREST@) {
        Some((TextureFilter::Nearest, r.skip(FILTER_NEAREST@.len() as int)))
    } else if spec_starts_with(r, FILTER_LINEAR@) {
        Some((TextureFilter::Linear, r.skip(FILTER_LINEAR@.len() as int)))
    } else if spec_starts_with(r, FILTER_MIPMAP@) {
        Some((TextureFilter::Mipmap, r.skip(FILTER_MIPMAP@.len() as int)))
    } else {
        None
    }
}

/// Meaning of the wrap field, which closes the config line.
pub open spec fn spec_parse_wrap(r: Seq<char>) -> Option<TextureWrap> {
    if r == WRAP_REPEAT@ {
        Some(TextureWrap::Repeat)
    } else if r == WRAP_CLAMP@ {
        Some(TextureWrap::Clamp)
    } else {
        None
    }
}

/// Meaning of a config line body.
pub open spec fn spec_parse_config_line(l: Seq<char>) -> Option<ChannelConfig> {
    if spec_starts_with(l, CONFIG_OPEN@) {
        match spec_parse_vflip(l.skip(CONFIG_OPEN@.len() as int)) {
            None => None,
            Some((vflip, r1)) => match spec_parse_filter(r1) {
                None => None,
                Some((filter, r2)) => match spec_parse_wrap(r2) {
                    None => None,
                    Some(wrap) => Some(ChannelConfig::Texture { vflip, filter, wrap }),
                },
            },
        }
    } else {
        None
    }
}

/// Meaning of a whole configuration text: the channel list it defines, or
/// nothing if the text is not canonical.
pub open spec fn spec_parse_channels(s: Seq<char>) -> Option<Seq<ChannelModel>>
    decreases s.len() via spec_parse_channels_decreases
{
    if s.len() == 0 {
        Some(Seq::empty())
    } else if !spec_starts_with(s, CHANNEL_HEADER@) {
        None
    } else {
        let s1 = s.skip(CHANNEL_HEADER@.len() as int);
        match spec_find_nl(s1) {
            None => None,
            Some(i) => match spec_parse_source_line(s1.take(i as int)) {
                None => None,
                Some(source) => {
                    let s2 = s1.skip(i as int + 1);
                    match spec_find_nl(s2) {
                        None => None,
                        Some(j) => match spec_parse_config_line(s2.take(j as int)) {
                            None => None,
                            Some(config) => match spec_parse_channels(s2.skip(j as int + 1)) {
                                None => None,
                                Some(rest) => Some(seq![ChannelModel { source, config }] + rest),
                            },
                        },
                    }
                },
            },
        }
    }
}

#[via_fn]
proof fn spec_parse_channels_decreases(s: Seq<char>) {
    if s.len() != 0 && spec_starts_with(s, CHANNEL_HEADER@) {
        let s1 = s.skip(CHANNEL_HEADER@.len() as int);
        lemma_find_nl_is_first(s1);
        match spec_find_nl(s1) {
            None => {},
            Some(i) => {
                let s2 = s1.skip(i as int + 1);
                lemma_find_nl_is_first(s2);
            },
        }
    }
}

/// A concatenation starts with its first part, and skipping it leaves the
/// second.
pub proof fn lemma_starts_with_concat(p: Seq<char>, rest: Seq<char>)
    ensures
        spec_starts_with(p + rest, p),
        (p + rest).skip(p.len() as int) == rest,
{
    assert((p + rest).take(p.len() as int) =~= p);
    assert((p + rest).skip(p.len() as int) =~= rest);
}

/// Texts without line breaks concatenate to a text without line breaks.
pub proof fn lemma_no_break_concat(a: Seq<char>, b: Seq<char>)
    requires
        spec_no_line_break(a),
        spec_no_line_break(b),
    ensures
        spec_no_line_break(a + b),
{
    assert forall|k: int| 0 <= k < (a + b).len() implies (a + b)[k] != '\n' by {
        if k < a.len() {
            assert((a + b)[k] == a[k]);
        } else {
            assert((a + b)[k] == b[k - a.len()]);
        }
    }
}

/// In `a`, a line break, then `b`: the first line is exactly `a`.
pub proof fn lemma_line_at_front(a: Seq<char>, b: Seq<char>, s: Seq<char>)
    requires
        s == a + seq!['\n'] + b,
        spec_no_line_break(a),
    ensures
        spec_find_nl(s) == Some(a.len()),
        s.take(a.len() as int) == a,
        s.skip(a.len() as int + 1) == b,
{
    assert(s[a.len() as int] == '\n');
    assert forall|k: int| 0 <= k < a.len() implies s[k] != '\n' by {
        assert(s[k] == a[k]);
    }
    lemma_find_nl_at(s, a.len());
    assert(s.take(a.len() as int) =~= a);
    assert(s.skip(a.len() as int + 1) =~= b);
}

/// Ground facts about the canonical text pieces: lengths, line-break
/// freedom, and the characters that tell the alternatives apart.
proof fn lemma_literal_facts()
    ensures
        CHANNEL_HEADER@.len() == 13,
        NL@ == seq!['\n'],
        SOURCE_BUILTIN_NOISE@.len() == 35,
        SOURCE_PATH_OPEN@.len() == 19,
        SOURCE_PATH_CLOSE@.len() == 3,
        CONFIG_OPEN@.len() == 19,
        VFLIP_TRUE@.len() == 16,
        VFLIP_FALSE@.len() == 17,
        FILTER_NEAREST@.len() == 18,
        FILTER_LINEAR@.len() == 17,
        FILTER_MIPMAP@.len() == 17,
        WRAP_REPEAT@.len() == 9,
        WRAP_CLAMP@.len() == 8,
        spec_no_line_break(SOURCE_BUILTIN_NOISE@),
        spec_no_line_break(SOURCE_PATH_OPEN@),
        spec_no_line_break(SOURCE_PATH_CLOSE@),
        spec_no_line_break(CONFIG_OPEN@),
        spec_no_line_break(VFLIP_TRUE@),
        spec_no_line_break(VFLIP_FALSE@),
        spec_no_line_break(FILTER_NEAREST@),
        spec_no_line_break(FILTER_LINEAR@),
        spec_no_line_break(FILTER_MIPMAP@),
        spec_no_line_break(WRAP_REPEAT@),
        spec_no_line_break(WRAP_CLAMP@),
        SOURCE_BUILTIN_NOISE@[9] == '"',
        SOURCE_PATH_OPEN@[9] == '{',
        VFLIP_TRUE@[0] == 't',
        VFLIP_FALSE@[0] == 'f',
        FILTER_NEAREST@[0] == 'n',
        FILTER_LINEAR@[0] == 'l',
        FILTER_MIPMAP@[0] == 'm',
        WRAP_REPEAT@[0] == 'r',
        WRAP_CLAMP@[0] == 'c',
        WRAP_REPEAT@ != WRAP_CLAMP@,
{
    reveal_strlit("[[channels]]\n");
    reveal_strlit("\n");
    reveal_strlit("source = \"builtin:rgba_noise_small\"");
    reveal_strlit("source = { path = \"");
    reveal_strlit("\" }");
    reveal_strlit("config = { vflip = ");
    reveal_strlit("true, filter = \"");
    reveal_strlit("false, filter = \"");
    reveal_strlit("nearest\", wrap = \"");
    reveal_strlit("linear\", wrap = \"");
    reveal_strlit("mipmap\", wrap = \"");
    reveal_strlit("repeat\" }");
    reveal_strlit("clamp\" }");
    assert(NL@ =~= seq!['\n']);
}

/// A written source line reads back as the source it was written from.
proof fn lemma_source_line_round_trip(src: SourceModel)
    requires
        spec_channel_wf(ChannelModel {
            source: src,
            config: ChannelConfig::Texture {
                vflip: true,
                filter: TextureFilter::Linear,
                wrap: TextureWrap::Repeat,
            },
        }),
    ensures
        spec_parse_source_line(spec_render_source(src)) == Some(src),
        spec_no_line_break(spec_render_source(src)),
{
    lemma_literal_facts();
    match src {
        SourceModel::Builtin { name } => {
        },
        SourceModel::FromDisk { path } => {
            let l = spec_render_source(src);
            assert(l == SOURCE_PATH_OPEN@ + path + SOURCE_PATH_CLOSE@);
            lemma_no_break_concat(SOURCE_PATH_OPEN@, path);
            lemma_no_break_concat(SOURCE_PATH_OPEN@ + path, SOURCE_PATH_CLOSE@);
            assert(l.len() == 22 + path.len());
            assert(l[9] == SOURCE_PATH_OPEN@[9]);
            assert(l != SOURCE_BUILTIN_NOISE@);
            assert(l =~= SOURCE_PATH_OPEN@ + (path + SOURCE_PATH_CLOSE@));
            lemma_starts_with_concat(SOURCE_PATH_OPEN@, path + SOURCE_PATH_CLOSE@);
            assert(l.skip(l.len() - 3) =~= SOURCE_PATH_CLOSE@);
            assert(l.subrange(19, l.len() - 3) =~= path);
        },
    }
}

/// A written config line reads back as the configuration it was written
/// from.
proof fn lemma_config_line_round_trip(c: ChannelConfig)
    ensures
        spec_parse_config_line(spec_render_config_line(c)) == Some(c),
        spec_no_line_break(spec_render_config_line(c)),
{
    lemma_literal_facts();
    match c {
        ChannelConfig::Texture { vflip, filter, wrap } => {
            let vpart = if vflip {
                VFLIP_TRUE@
            } else {
                VFLIP_FALSE@
            };
            let fpart = match filter {
                TextureFilter::Nearest => FILTER_NEAREST@,
                TextureFilter::Linear => FILTER_LINEAR@,
                TextureFilter::Mipmap => FILTER_MIPMAP@,
            };
            let wpart = match wrap {
                TextureWrap::Repeat => WRAP_REPEAT@,
                TextureWrap::Clamp => WRAP_CLAMP@,
            };
            let l = spec_render_config_line(c);
            assert(l == CONFIG_OPEN@ + vpart + fpart + wpart);
            lemma_no_break_concat(vpart, fpart);
            lemma_no_break_concat(vpart + fpart, wpart);
            lemma_no_break_concat(CONFIG_OPEN@, vpart + fpart + wpart);
            assert(l =~= CONFIG_OPEN@ + (vpart + fpart + wpart));
            assert(spec_no_line_break(l));
            lemma_starts_with_concat(CONFIG_OPEN@, vpart + fpart + wpart);
            let r0 = l.skip(CONFIG_OPEN@.len() as int);
            assert(r0 == vpart + fpart + wpart);
            assert(r0 =~= vpart + (fpart + wpart));
            lemma_starts_with_concat(vpart, fpart + wpart);
            assert(r0[0] == vpart[0]);
            if !vflip {
                assert(!spec_starts_with(r0, VFLIP_TRUE@)) by {
                    if spec_starts_with(r0, VFLIP_TRUE@) {
                        assert(r0.take(16)[0] == VFLIP_TRUE@[0]);
                    }
                }
            }
            assert(spec_parse_vflip(r0) == Some((vflip, fpart + wpart)));
            let r1 = fpart + wpart;
            lemma_starts_with_concat(fpart, wpart);
            assert(r1[0] == fpart[0]);
            if filter is Linear {
                assert(!spec_starts_with(r1, FILTER_NEAREST@)) by {
                    if spec_starts_with(r1, FILTER_NEAREST@) {
                        assert(r1.take(FILTER_NEAREST@.len() as int)[0] == FILTER_NEAREST@[0]);
                    }
                }
            }
            if filter is Mipmap {
                assert(!spec_starts_with(r1, FILTER_NEAREST@)) by {
                    if spec_starts_with(r1, FILTER_NEAREST@) {
                        assert(r1.take(FILTER_NEAREST@.len() as int)[0] == FILTER_NEAREST@[0]);
                    }
                }
                assert(!spec_starts_with(r1, FILTER_LINEAR@)) by {
                    if spec_starts_with(r1, FILTER_LINEAR@) {
                        assert(r1.take(FILTER_LINEAR@.len() as int)[0] == FILTER_LINEAR@[0]);
                    }
                }
            }
            assert(spec_parse_filter(r1) == Some((filter, wpart)));
            assert(spec_parse_wrap(wpart) == Some(wrap));
        },
    }
}

/// Law: reading back a written channel configuration yields exactly the
/// channel list that was written, for every list whose paths fit on a
/// line.
#[verifier::rlimit(50)]
pub proof fn lemma_config_round_trip(cs: Seq<ChannelModel>)
    requires
        spec_channels_wf(cs),
    ensures
        spec_parse_channels(spec_render_channels(cs)) == Some(cs),
    decreases cs.len(),
{
    lemma_literal_facts();
    if cs.len() == 0 {
    } else {
        let c = cs[0];
        assert(spec_channel_wf(c));
        let src_l = spec_render_source(c.source);
        let cfg_l = spec_render_config_line(c.config);
        let rest = spec_render_channels(cs.drop_first());
        let s = spec_render_channels(cs);
        lemma_source_line_round_trip(c.source);
        lemma_config_line_round_trip(c.config);
        let tail2 = cfg_l + seq!['\n'] + rest;
        let tail1 = src_l + seq!['\n'] + tail2;
        assert(s == spec_render_channel(c) + rest);
        assert(s =~= CHANNEL_HEADER@ + tail1);
        lemma_starts_with_concat(CHANNEL_HEADER@, tail1);
        assert(s.skip(13) == tail1);
        lemma_line_at_front(src_l, tail2, tail1);
        lemma_line_at_front(cfg_l, rest, tail2);
        assert(spec_channels_wf(cs.drop_first())) by {
            assert(forall|k: int|
                0 <= k < cs.drop_first().len() ==> cs.drop_first()[k] == cs[k + 1]);
        }
        lemma_config_round_trip(cs.drop_first());
        assert(spec_parse_channels(s) == Some(
            seq![ChannelModel { source: c.source, config: c.config }] + cs.drop_first(),
        ));
        assert(ChannelModel { source: c.source, config: c.config } == c);
        assert(seq![c] + cs.drop_first() =~= cs);
    }
}

/// Appending one channel to a list appends its three lines to the text.
pub proof fn lemma_render_channels_snoc(cs: Seq<ChannelModel>, c: ChannelModel)
    ensures
        spec_render_channels(cs.push(c)) == spec_render_channels(cs) + spec_render_channel(c),
    decreases cs.len(),
{
    if cs.len() == 0 {
        assert(cs.push(c)[0] == c);
        assert(cs.push(c).drop_first() =~= Seq::<ChannelModel>::empty());
        assert(spec_render_channels(cs.push(c)) == spec_render_channel(c)
            + spec_render_channels(Seq::<ChannelModel>::empty()));
        assert(spec_render_channel(c) + Seq::<char>::empty() =~= spec_render_channel(c));
        assert(spec_render_channels(cs) == Seq::<char>::empty());
        assert(Seq::<char>::empty() + spec_render_channel(c) =~= spec_render_channel(c));
    } else {
        assert(cs.push(c)[0] == cs[0]);
        assert(cs.push(c).drop_first() =~= cs.drop_first().push(c));
        lemma_render_channels_snoc(cs.drop_first(), c);
        assert(spec_render_channels(cs.push(c)) == spec_render_channel(cs[0])
            + spec_render_channels(cs.drop_first().push(c)));
        assert(spec_render_channels(cs) == spec_render_channel(cs[0]) + spec_render_channels(
            cs.drop_first(),
        ));
        assert(spec_render_channel(cs[0]) + (spec_render_channels(cs.drop_first())
            + spec_render_channel(c)) =~= (spec_render_channel(cs[0]) + spec_render_channels(
            cs.drop_first(),
        )) + spec_render_channel(c));
    }
}

/// Write the canonical configuration text for a channel list.
#[verifier::rlimit(50)]
pub fn render_config(c: &Config) -> (r: String)
    ensures
        r@ == spec_render_channels(c@),
{
    proof {
        lemma_literal_facts();
    }
    let mut s = String::new();
    let mut i: usize = 0;
    while i < c.channels.len()
        invariant
            i <= c.channels.len(),
            s@ == spec_render_channels(c@.take(i as int)),
            c@ == c.channels@.map_values(|ch: Channel| ch@),
            NL@ == seq!['\n'],
        decreases c.channels.len() - i,
    {
        let ch = &c.channels[i];
        let ghost s0 = s@;
        s.append(CHANNEL_HEADER);
        match &ch.source {
            ChannelSource::Builtin { name } => match name {
                BuiltinName::RgbaNoiseSmall => s.append(SOURCE_BUILTIN_NOISE),
            },
            ChannelSource::FromDisk { path } => {
                s.append(SOURCE_PATH_OPEN);
                s.append(path.as_str());
                s.append(SOURCE_PATH_CLOSE);
                proof {
                    assert(s@ =~= s0 + CHANNEL_HEADER@ + spec_render_source(ch@.source));
                }
            },
        }
        assert(s@ == s0 + CHANNEL_HEADER@ + spec_render_source(ch@.source));
        s.append(NL);
        let ghost s1 = s@;
        match &ch.config {
            ChannelConfig::Texture { vflip, filter, wrap } => {
                s.append(CONFIG_OPEN);
                if *vflip {
                    s.append(VFLIP_TRUE);
                } else {
                    s.append(VFLIP_FALSE);
                }
                match filter {
                    TextureFilter::Nearest => s.append(FILTER_NEAREST),
                    TextureFilter::Linear => s.append(FILTER_LINEAR),
                    TextureFilter::Mipmap => s.append(FILTER_MIPMAP),
                }
                match wrap {
                    TextureWrap::Repeat => s.append(WRAP_REPEAT),
                    TextureWrap::Clamp => s.append(WRAP_CLAMP),
                }
                proof {
                    assert(s@ =~= s1 + spec_render_config_line(ch@.config));
                }
            },
        }
        assert(s@ == s1 + spec_render_config_line(ch@.config));
        s.append(NL);
        proof {
            assert(c@[i as int] == ch@);
            assert(s@ =~= spec_render_channels(c@.take(i as int)) + spec_render_channel(ch@));
            lemma_render_channels_snoc(c@.take(i as int), ch@);
            assert(c@.take(i as int).push(ch@) =~= c@.take(i as int + 1));
        }
        i = i + 1;
    }
    proof {
        assert(c@.take(c@.len() as int) =~= c@);
    }
    s
}

/// A configuration text that is not canonical.
#[derive(Clone, Copy, PartialEq, Eq, Structural, Debug)]
pub struct ConfigParseError {
}

/// Whether the text at `pos` continues with `p`.
fn starts_with_at(s: &str, pos: usize, p: &str) -> (r: bool)
    requires
        pos <= s@.len(),
    ensures
        r == spec_starts_with(s@.skip(pos as int), p@),
{
    let n = s.unicode_len();
    let m = p.unicode_len();
    if m > n - pos {
        assert(p@.len() > s@.skip(pos as int).len());
        return false;
    }
    let mut j: usize = 0;
    while j < m
        invariant
            j <= m,
            m == p@.len(),
            n == s@.len(),
            pos + m <= n,
            forall|k: int| 0 <= k < j ==> s@[pos + k] == p@[k],
        decreases m - j,
    {
        if s.get_char(pos + j) != p.get_char(j) {
            assert(s@.skip(pos as int)[j as int] == s@[pos + j as int]);
            assert(!spec_starts_with(s@.skip(pos as int), p@)) by {
                if spec_starts_with(s@.skip(pos as int), p@) {
                    assert(s@.skip(pos as int).take(m as int)[j as int] == p@[j as int]);
                }
            }
            return false;
        }
        j = j + 1;
    }
    proof {
        assert(s@.skip(pos as int).take(m as int) =~= p@);
    }
    true
}

/// Find the next line break at or after `pos`.
fn find_nl_at(s: &str, pos: usize) -> (r: Option<usize>)
    requires
        pos <= s@.len(),
    ensures
        match r {
            Some(i) => pos <= i < s@.len() && spec_find_nl(s@.skip(pos as int)) == Some(
                (i - pos) as nat,
            ),
            None => spec_find_nl(s@.skip(pos as int)) == None::<nat>,
        },
{
    let n = s.unicode_len();
    let mut i: usize = pos;
    while i < n
        invariant
            pos <= i <= n,
            n == s@.len(),
            forall|k: int| pos <= k < i ==> s@[k] != '\n',
        decreases n - i,
    {
        if s.get_char(i) == '\n' {
            proof {
                let t = s@.skip(pos as int);
                assert(t[i - pos as int] == s@[i as int]);
                assert forall|k: int| 0 <= k < i - pos implies t[k] != '\n' by {
                    assert(t[k] == s@[pos + k]);
                }
                lemma_find_nl_at(t, (i - pos) as nat);
            }
            return Some(i);
        }
        i = i + 1;
    }
    proof {
        let t = s@.skip(pos as int);
        assert forall|k: int| 0 <= k < t.len() implies t[k] != '\n' by {
            assert(t[k] == s@[pos + k]);
        }
        lemma_find_nl_none(t);
    }
    None
}

/// Read one source line body.
fn parse_source_line(l: &str) -> (r: Option<ChannelSource>)
    ensures
        match r {
            Some(src) => spec_parse_source_line(l@) == Some(src@),
            None => spec_parse_source_line(l@) is None,
        },
{
    proof {
        lemma_literal_facts();
    }
    if str_eq(l, SOURCE_BUILTIN_NOISE) {
        return Some(ChannelSource::Builtin { name: BuiltinName::RgbaNoiseSmall });
    }
    let n = l.unicode_len();
    if n < 22 {
        return None;
    }
    proof {
        assert(l@.skip(0) =~= l@);
    }
    if !starts_with_at(l, 0, SOURCE_PATH_OPEN) {
        return None;
    }
    if !starts_with_at(l, n - 3, SOURCE_PATH_CLOSE) {
        assert(spec_parse_source_line(l@) is None) by {
            if l@.skip(l@.len() - 3) == SOURCE_PATH_CLOSE@ {
                assert(spec_starts_with(l@.skip(l@.len() - 3), SOURCE_PATH_CLOSE@)) by {
                    assert(l@.skip(l@.len() - 3).take(3) =~= l@.skip(l@.len() - 3));
                }
            }
        }
        return None;
    }
    let path = l.substring_char(19, n - 3);
    proof {
        let t = l@.skip(l@.len() - 3);
        assert(t.take(3) =~= t);
        assert(t == SOURCE_PATH_CLOSE@);
    }
    Some(ChannelSource::FromDisk { path: String::from_str(path) })
}

/// Read one config line body.
fn parse_config_line(l: &str) -> (r: Option<ChannelConfig>)
    ensures
        r == spec_parse_config_line(l@),
{
    proof {
        lemma_literal_facts();
        assert(l@.skip(0) =~= l@);
    }
    if !starts_with_at(l, 0, CONFIG_OPEN) {
        return None;
    }
    let n = l.unicode_len();
    let mut pos: usize = 19;
    let ghost r0 = l@.skip(19);
    let vflip: bool;
    if starts_with_at(l, pos, VFLIP_TRUE) {
        vflip = true;
        pos = pos + 16;
    } else if starts_with_at(l, pos, VFLIP_FALSE) {
        vflip = false;
        pos = pos + 17;
    } else {
        return None;
    }
    proof {
        assert(r0.skip(if vflip { 16int } else { 17int }) =~= l@.skip(pos as int));
    }
    let ghost r1 = l@.skip(pos as int);
    assert(spec_parse_vflip(r0) == Some((vflip, r1)));
    let filter: TextureFilter;
    if starts_with_at(l, pos, FILTER_NEAREST) {
        filter = TextureFilter::Nearest;
        proof {
            assert(r1.skip(18) =~= l@.skip(pos + 18));
        }
        pos = pos + 18;
    } else if starts_with_at(l, pos, FILTER_LINEAR) {
        filter = TextureFilter::Linear;
        proof {
            assert(r1.skip(17) =~= l@.skip(pos + 17));
        }
        pos = pos + 17;
    } else if starts_with_at(l, pos, FILTER_MIPMAP) {
        filter = TextureFilter::Mipmap;
        proof {
            assert(r1.skip(17) =~= l@.skip(pos + 17));
        }
        pos = pos + 17;
    } else {
        return None;
    }
    let ghost r2 = l@.skip(pos as int);
    assert(spec_parse_filter(r1) == Some((filter, r2)));
    let tail = l.substring_char(pos, n);
    proof {
        assert(tail@ =~= r2);
    }
    let wrap: TextureWrap;
    if str_eq(tail, WRAP_REPEAT) {
        wrap = TextureWrap::Repeat;
    } else if str_eq(tail, WRAP_CLAMP) {
        wrap = TextureWrap::Clamp;
    } else {
        return None;
    }
    Some(ChannelConfig::Texture { vflip, filter, wrap })
}

/// Read a configuration text. Exactly the canonical texts are accepted;
/// the channel list read back is the one the text was written from.
pub fn parse_config(s: &str) -> (r: Result<Config, ConfigParseError>)
    ensures
        match r {
            Ok(c) => spec_parse_channels(s@) == Some(c@),
            Err(e) => spec_parse_channels(s@) is None,
        },
{
    proof {
        lemma_literal_facts();
    }
    let n = s.unicode_len();
    let mut channels: Vec<Channel> = Vec::new();
    let mut pos: usize = 0;
    proof {
        assert(s@.skip(0) =~= s@);
        assert(channels@.map_values(|ch: Channel| ch@) =~= Seq::<ChannelModel>::empty());
        match spec_parse_channels(s@) {
            Some(rest) => {
                assert(Seq::<ChannelModel>::empty() + rest =~= rest);
            },
            None => {},
        }
    }
    while pos < n
        invariant
            pos <= n,
            n == s@.len(),
            CHANNEL_HEADER@.len() == 13,
            match spec_parse_channels(s@.skip(pos as int)) {
                Some(rest) => spec_parse_channels(s@) == Some(
                    channels@.map_values(|ch: Channel| ch@) + rest,
                ),
                None => spec_parse_channels(s@) is None,
            },
        decreases n - pos,
    {
        let ghost sp = s@.skip(pos as int);
        if !starts_with_at(s, pos, CHANNEL_HEADER) {
            return Err(ConfigParseError {  });
        }
        let pos1 = pos + 13;
        proof {
            assert(sp.skip(13) =~= s@.skip(pos1 as int));
        }
        let nl1 = match find_nl_at(s, pos1) {
            None => {
                return Err(ConfigParseError {  });
            },
            Some(i) => i,
        };
        let line1 = s.substring_char(pos1, nl1);
        proof {
            assert(line1@ =~= s@.skip(pos1 as int).take(nl1 - pos1 as int));
        }
        let source = match parse_source_line(line1) {
            None => {
                return Err(ConfigParseError {  });
            },
            Some(src) => src,
        };
        let pos2 = nl1 + 1;
        proof {
            assert(s@.skip(pos1 as int).skip(nl1 - pos1 as int + 1) =~= s@.skip(pos2 as int));
        }
        let nl2 = match find_nl_at(s, pos2) {
            None => {
                return Err(ConfigParseError {  });
            },
            Some(j) => j,
        };
        let line2 = s.substring_char(pos2, nl2);
        proof {
            assert(line2@ =~= s@.skip(pos2 as int).take(nl2 - pos2 as int));
        }
        let config = match parse_config_line(line2) {
            None => {
                return Err(ConfigParseError {  });
            },
            Some(cfg) => cfg,
        };
        let ghost old_channels = channels@;
        channels.push(Channel { source, config });
        proof {
            assert(s@.skip(pos2 as int).skip(nl2 - pos2 as int + 1) =~= s@.skip(nl2 + 1 as int));
            let chm = ChannelModel { source: source@, config };
            assert(spec_parse_channels(sp) == match spec_parse_channels(s@.skip(nl2 + 1 as int)) {
                Some(rest) => Some(seq![chm] + rest),
                None => None::<Seq<ChannelModel>>,
            });
            assert(channels@.map_values(|ch: Channel| ch@) =~= old_channels.map_values(
                |ch: Channel| ch@,
            ).push(chm));
            match spec_parse_channels(s@.skip(nl2 + 1 as int)) {
                Some(rest) => {
                    assert(old_channels.map_values(|ch: Channel| ch@) + (seq![chm] + rest)
                        =~= old_channels.map_values(|ch: Channel| ch@).push(chm) + rest);
                },
                None => {},
            }
        }
        pos = nl2 + 1;
    }
    proof {
        assert(s@.skip(pos as int).len() == 0);
        assert(spec_parse_channels(s@.skip(pos as int)) == Some(Seq::<ChannelModel>::empty()));
        assert(channels@.map_values(|ch: Channel| ch@) + Seq::<ChannelModel>::empty()
            =~= channels@.map_values(|ch: Channel| ch@));
    }
    Ok(Config { channels })
}

} // verus!
