use vstd::prelude::*;
use crate::config::MatugenConfig;
use crate::palette::Palette;
use crate::palette::spec_values;

verus! {

/// The argument list for one renderer run seeded by a color: the color
/// template, then the configured extra arguments, then the seed color.
pub open spec fn spec_color_args(cfg: MatugenConfig, seed: Seq<char>) -> Seq<Seq<char>> {
    cfg.args_color.deep_view() + cfg.extra_args.deep_view() + seq![seed]
}

/// The argument list for one renderer run seeded by the image itself: the
/// image template, then the extra arguments, then the image path.
pub open spec fn spec_image_args(cfg: MatugenConfig, image_path: Seq<char>) -> Seq<Seq<char>> {
    cfg.args_image.deep_view() + cfg.extra_args.deep_view() + seq![image_path]
}

/// The renderer runs one apply makes: one per present palette color, in
/// value order — or, with no usable palette, exactly one run from the
/// original image.
pub open spec fn spec_render_invocations(
    cfg: MatugenConfig,
    palette: Option<Palette>,
    image_path: Seq<char>,
) -> Seq<Seq<Seq<char>>> {
    match palette {
        Some(p) => {
            if spec_values(p@).len() == 0 {
                seq![spec_image_args(cfg, image_path)]
            } else {
                Seq::new(
                    spec_values(p@).len(),
                    |i: int| spec_color_args(cfg, spec_values(p@)[i]),
                )
            }
        },
        None => seq![spec_image_args(cfg, image_path)],
    }
}

fn append_all(out: &mut Vec<String>, src: &Vec<String>)
    ensures
        final(out).deep_view() == old(out).deep_view() + src.deep_view(),
{
    let n = src.len();
    let mut i: usize = 0;
    proof {
        assert(out.deep_view() =~= old(out).deep_view() + src.deep_view().take(0));
    }
    while i < n
        invariant
            0 <= i <= n,
            n == src@.len(),
            out@.len() == old(out)@.len() + i,
            out.deep_view() == old(out).deep_view() + src.deep_view().take(i as int),
        decreases n - i,
    {
        let ghost pre = out@;
        let ghost pre_dv = out.deep_view();
        out.push(src[i].clone());
        proof {
            assert forall|k: int|
                0 <= k < out@.len() implies out.deep_view()[k] == (old(out).deep_view()
                + src.deep_view().take(i + 1))[k] by {
                if k < pre.len() {
                    assert(out@[k] == pre[k]);
                    assert(out.deep_view()[k] == pre[k].deep_view());
                    assert(pre_dv[k] == pre[k].deep_view());
                } else {
                    assert(out@[k] == src@[i as int]);
                    assert(src.deep_view().take(i + 1)[i as int] == src@[i as int]@);
                }
            }
            assert(out.deep_view() =~= old(out).deep_view() + src.deep_view().take(i + 1));
        }
        i = i + 1;
    }
    proof {
        assert(src.deep_view().take(n as int) =~= src.deep_view());
    }
}

/// Builds the renderer arguments for one seed color.
pub fn color_args(cfg: &MatugenConfig, seed: &String) -> (r: Vec<String>)
    ensures
        r.deep_view() == spec_color_args(*cfg, seed@),
{
    let mut out: Vec<String> = Vec::new();
    append_all(&mut out, &cfg.args_color);
    append_all(&mut out, &cfg.extra_args);
    out.push(seed.clone());
    proof {
        assert(out.deep_view() =~= spec_color_args(*cfg, seed@));
    }
    out
}

/// Builds the renderer arguments for the image fallback.
pub fn image_args(cfg: &MatugenConfig, image_path: &String) -> (r: Vec<String>)
    ensures
        r.deep_view() == spec_image_args(*cfg, image_path@),
{
    let mut out: Vec<String> = Vec::new();
    append_all(&mut out, &cfg.args_image);
    append_all(&mut out, &cfg.extra_args);
    out.push(image_path.clone());
    proof {
        assert(out.deep_view() =~= spec_image_args(*cfg, image_path@));
    }
    out
}

/// Plans every renderer run of one apply. With a usable palette there is
/// one color-seeded run per present value; without one — the model failed
/// or returned nothing usable — there is exactly one image-seeded run, so
/// something is always rendered.
pub fn render_invocations(
    cfg: &MatugenConfig,
    palette: &Option<Palette>,
    image_path: &String,
) -> (r: Vec<Vec<String>>)
    ensures
        r.deep_view() == spec_render_invocations(*cfg, *palette, image_path@),
        (match palette {
            Some(p) => spec_values(p@).len() == 0,
            None => true,
        }) ==> r.deep_view() == seq![spec_image_args(*cfg, image_path@)],
        r@.len() > 0,
{
    match palette {
        Some(p) => {
            let vals = p.values();
            if vals.len() == 0 {
                let mut out: Vec<Vec<String>> = Vec::new();
                out.push(image_args(cfg, image_path));
                proof {
                    assert(out.deep_view() =~= seq![spec_image_args(*cfg, image_path@)]);
                }
                out
            } else {
                let n = vals.len();
                let mut out: Vec<Vec<String>> = Vec::new();
                let mut i: usize = 0;
                while i < n
                    invariant
                        0 <= i <= n,
                        n == vals@.len(),
                        vals.deep_view() == spec_values(p@),
                        out@.len() == i,
                        forall|j: int|
                            0 <= j < i ==> #[trigger] out.deep_view()[j] == spec_color_args(
                                *cfg,
                                spec_values(p@)[j],
                            ),
                    decreases n - i,
                {
                    let args = color_args(cfg, &vals[i]);
                    let ghost pre = out@;
                    let ghost pre_dv = out.deep_view();
                    out.push(args);
                    proof {
                        assert(vals.deep_view()[i as int] == vals@[i as int]@);
                        assert forall|j: int|
                            0 <= j < i + 1 implies #[trigger] out.deep_view()[j]
                            == spec_color_args(*cfg, spec_values(p@)[j]) by {
                            if j < i {
                                assert(out@[j] == pre[j]);
                                assert(out.deep_view()[j] == pre[j].deep_view());
                                assert(pre_dv[j] == pre[j].deep_view());
                            } else {
                                assert(out@[j] == args);
                                assert(out.deep_view()[j] == args.deep_view());
                            }
                        }
                    }
                    i = i + 1;
                }
                proof {
                    assert(out.deep_view() =~= spec_render_invocations(
                        *cfg,
                        *palette,
                        image_path@,
                    ));
                }
                out
            }
        },
        None => {
            let mut out: Vec<Vec<String>> = Vec::new();
            out.push(image_args(cfg, image_path));
            proof {
                assert(out.deep_view() =~= seq![spec_image_args(*cfg, image_path@)]);
            }
            out
        },
    }
}

} // verus!
