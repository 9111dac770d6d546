//! The shared camera configuration and the per-request stream session.
//!
//! A session owns a cursor into the configured image list and nothing else;
//! the configuration is immutable and shared read-only, so concurrent
//! sessions are fully independent. The session decides; the caller performs
//! the file read and the pacing sleep between frames, and hands the read's
//! outcome to [`Session::step`], which frames the image and advances the
//! cursor — or, on a failed read, ends the session without emitting
//! anything further.

use vstd::prelude::*;

use crate::content_type::{content_type_for, spec_content_type};
use crate::multipart::{encode_part, encoded_part, Frame};

verus! {

/// The camera's configuration, fixed at startup and shared read-only by
/// every session: the ordered list of image file paths to cycle, and the
/// address the server listens on.
pub struct CameraConfig {
    /// The ordered image file paths, cycled forever; never empty.
    pub imgs: Vec<Vec<u8>>,
    /// The listen address, kept for the serving layer.
    pub addr: Vec<u8>,
}

impl CameraConfig {
    /// The configured paths, as byte strings.
    pub open spec fn paths(&self) -> Seq<Seq<u8>> {
        Seq::new(self.imgs@.len(), |i: int| self.imgs@[i]@)
    }

    /// A configuration is well formed when it has at least one image.
    pub open spec fn wf(&self) -> bool {
        self.paths().len() >= 1
    }

    /// Builds the configuration, rejecting an empty image list: the feed
    /// has no meaning without at least one image, and an empty list is
    /// refused at startup rather than at stream time.
    pub fn new(imgs: Vec<Vec<u8>>, addr: Vec<u8>) -> (r: Option<CameraConfig>)
        ensures
            r is Some <==> imgs@.len() >= 1,
            r matches Some(c) ==> c.wf() && c.imgs@ == imgs@ && c.addr@ == addr@,
    {
        if imgs.len() == 0 {
            None
        } else {
            Some(CameraConfig { imgs, addr })
        }
    }

    /// How many images the configuration cycles through.
    pub fn image_count(&self) -> (n: usize)
        ensures
            n == self.paths().len(),
    {
        self.imgs.len()
    }
}

/// What one attempt to read the current image file produced: its full
/// contents, or a failure. The caller maps its I/O error into `Failure`;
/// a partially read file is never handed over.
pub enum ReadOutcome {
    /// The file's complete contents.
    Data(Vec<u8>),
    /// The file could not be read (missing, permission denied, I/O error).
    Failure,
}

/// One client's stream session: a cursor into the shared image list.
/// Every session starts at the first configured image and wraps around
/// forever, independently of any other session.
pub struct Session {
    /// The position in the configured image list of the next frame.
    pub cursor: usize,
}

impl Session {
    /// A session is well formed when its cursor lies inside the list.
    pub open spec fn wf(&self, cfg: &CameraConfig) -> bool {
        (self.cursor as int) < cfg.paths().len()
    }

    /// Opens a fresh session: its cycle starts at the first configured
    /// image, regardless of any other session's position.
    pub fn new(cfg: &CameraConfig) -> (s: Session)
        requires
            cfg.wf(),
        ensures
            s.cursor == 0,
            s.wf(cfg),
    {
        Session { cursor: 0 }
    }

    /// The path of the image the next frame will show.
    pub fn current_path<'a>(&self, cfg: &'a CameraConfig) -> (p: &'a Vec<u8>)
        requires
            self.wf(cfg),
        ensures
            p@ == cfg.paths()[self.cursor as int],
    {
        &cfg.imgs[self.cursor]
    }

    /// Consumes one read outcome. A successful read of the current image
    /// becomes exactly one encoded multipart part — typed from the path's
    /// extension, its `Content-Length` the payload's byte count — and the
    /// cursor advances by one, wrapping at the end of the list. A failed
    /// read emits nothing and leaves the session where it was: the stream
    /// ends there, with no retry and no skipping.
    pub fn step(&mut self, cfg: &CameraConfig, outcome: ReadOutcome) -> (r: Option<Vec<u8>>)
        requires
            old(self).wf(cfg),
            cfg.wf(),
        ensures
            final(self).wf(cfg),
            match outcome {
                ReadOutcome::Data(body) => {
                    &&& r matches Some(chunk) && chunk@ == encoded_part(
                        spec_content_type(cfg.paths()[old(self).cursor as int]),
                        body@,
                    )
                    &&& final(self).cursor as int == (old(self).cursor + 1) % (
                    cfg.paths().len() as int)
                },
                ReadOutcome::Failure => r is None && *final(self) == *old(self),
            },
    {
        match outcome {
            ReadOutcome::Data(body) => {
                let ct = content_type_for(self.current_path(cfg).as_slice());
                let frame = Frame { content_type: ct, body };
                let chunk = encode_part(&frame);
                let n = cfg.imgs.len();
                if self.cursor + 1 == n {
                    self.cursor = 0;
                    proof {
                        vstd::arithmetic::div_mod::lemma_mod_self_0(n as int);
                    }
                } else {
                    self.cursor = self.cursor + 1;
                    proof {
                        vstd::arithmetic::div_mod::lemma_small_mod(
                            (old(self).cursor + 1) as nat,
                            n as nat,
                        );
                    }
                }
                Some(chunk)
            },
            ReadOutcome::Failure => None,
        }
    }
}

/// The pacing interval between consecutive frames of one session, in
/// seconds: the caller suspends this long after each emitted frame, so
/// consecutive emissions are separated by at least this much.
pub fn pacing_interval_secs() -> (r: u64)
    ensures
        r == 1,
{
    1
}

/// The content type of the frame a fresh session emits at step `k` (counting
/// from zero): the cursor cycles, so it is the type of the configured image
/// at `k` modulo the list's length.
pub open spec fn frame_content_type_at(cfg: CameraConfig, k: nat) -> Seq<u8>
    recommends
        cfg.wf(),
{
    spec_content_type(cfg.paths()[k as int % (cfg.paths().len() as int)])
}

/// The attributes of the frame at step `k` of a fresh session: its content
/// type and its payload's byte length, where `contents[i]` holds the bytes
/// of the `i`-th configured file.
pub open spec fn frame_meta_at(cfg: CameraConfig, contents: Seq<Seq<u8>>, k: nat) -> (Seq<
    u8,
>, nat)
    recommends
        cfg.wf(),
        contents.len() == cfg.paths().len(),
{
    (
        frame_content_type_at(cfg, k),
        contents[k as int % (cfg.paths().len() as int)].len(),
    )
}

/// The attributes of `m` consecutive frames starting at step `k`.
pub open spec fn meta_window(cfg: CameraConfig, contents: Seq<Seq<u8>>, k: nat, m: nat) -> Seq<
    (Seq<u8>, nat),
>
    recommends
        cfg.wf(),
        contents.len() == cfg.paths().len(),
{
    Seq::new(m, |i: int| frame_meta_at(cfg, contents, (k + i) as nat))
}

/// The configured list's own attributes, in order: each image's content
/// type and byte length.
pub open spec fn config_metas(cfg: CameraConfig, contents: Seq<Seq<u8>>) -> Seq<(Seq<u8>, nat)>
    recommends
        cfg.wf(),
        contents.len() == cfg.paths().len(),
{
    Seq::new(
        cfg.paths().len(),
        |i: int| (spec_content_type(cfg.paths()[i]), contents[i].len()),
    )
}

/// The cycle law: with a list of `n` images, any `2·n` consecutive frames
/// split into two windows of `n` with identical attributes, and a window
/// aligned to the start of a cycle is the configured list's attributes
/// repeated twice, in order.
pub proof fn lemma_cycle_window(cfg: CameraConfig, contents: Seq<Seq<u8>>, k: nat)
    requires
        cfg.wf(),
        contents.len() == cfg.paths().len(),
    ensures
        meta_window(cfg, contents, k, 2 * cfg.paths().len()) == meta_window(
            cfg,
            contents,
            k,
            cfg.paths().len(),
        ) + meta_window(cfg, contents, (k + cfg.paths().len()) as nat, cfg.paths().len()),
        meta_window(cfg, contents, (k + cfg.paths().len()) as nat, cfg.paths().len())
            == meta_window(cfg, contents, k, cfg.paths().len()),
        k as int % (cfg.paths().len() as int) == 0 ==> meta_window(
            cfg,
            contents,
            k,
            2 * cfg.paths().len(),
        ) == config_metas(cfg, contents) + config_metas(cfg, contents),
{
    let n = cfg.paths().len();
    assert forall|i: int| 0 <= i < n implies #[trigger] frame_meta_at(cfg, contents, (k + n + i) as nat)
        == frame_meta_at(cfg, contents, (k + i) as nat) by {
        vstd::arithmetic::div_mod::lemma_mod_multiples_vanish(1, (k + i) as int, n as int);
        assert((n as int) * 1 + ((k + i) as int) == (k + n + i) as int);
    }
    assert(meta_window(cfg, contents, k, 2 * n) =~= meta_window(cfg, contents, k, n)
        + meta_window(cfg, contents, (k + n) as nat, n));
    assert(meta_window(cfg, contents, (k + n) as nat, n) =~= meta_window(cfg, contents, k, n));
    if k as int % (n as int) == 0 {
        assert forall|i: int| 0 <= i < 2 * n implies #[trigger] frame_meta_at(cfg, contents, (k + i) as nat)
            == config_metas(cfg, contents)[if i < n {
            i
        } else {
            i - n
        }] by {
            let j = if i < n {
                i
            } else {
                i - n
            };
            vstd::arithmetic::div_mod::lemma_add_mod_noop(k as int, i as int, n as int);
            vstd::arithmetic::div_mod::lemma_mod_multiples_vanish(
                if i < n {
                    0
                } else {
                    1
                },
                j,
                n as int,
            );
            vstd::arithmetic::div_mod::lemma_small_mod(j as nat, n);
            assert((k + i) as int % (n as int) == j);
        }
        assert(meta_window(cfg, contents, k, 2 * n) =~= config_metas(cfg, contents)
            + config_metas(cfg, contents));
    }
}

} // verus!
