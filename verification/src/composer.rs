//! The composer: the post being written, the images attached to it and the
//! platforms it is to go to.

use vstd::prelude::*;
use vstd::string::*;
use crate::text::{copy_texts, texts};

verus! {

/// A platform the post can go to, switched on or off.
#[derive(Debug)]
pub struct PlatformChoice {
    pub name: String,
    pub active: bool,
}

/// What the user did.
#[derive(Clone, Debug)]
pub enum Message {
    ContentChanged(String),
    SchedulePressed,
    SaveDraftPressed,
    AttachImagePressed,
    /// The file dialog closed, with the path of the image or without one.
    ImageSelected(Option<String>),
    PlatformToggled(String, bool),
}

/// What the composer asks its caller to do after a message.
#[derive(Clone, Copy, Debug, PartialEq, Eq, Structural)]
pub enum ComposerAction {
    Nothing,
    /// Show the file dialog, and report with `Message::ImageSelected`.
    PickImage,
}

/// What a [`Composer`] holds, as mathematical values. The platforms are
/// pairs of a name and whether it is switched on, in the order in which the
/// names were first seen.
pub struct ComposerView {
    pub content: Seq<char>,
    pub selected_images: Seq<Seq<char>>,
    pub platforms: Seq<(Seq<char>, bool)>,
}

/// The names, in order.
pub open spec fn names(platforms: Seq<(Seq<char>, bool)>) -> Seq<Seq<char>> {
    Seq::new(platforms.len(), |i: int| platforms[i].0)
}

/// No platform is named twice.
pub open spec fn distinct_names(platforms: Seq<(Seq<char>, bool)>) -> bool {
    forall|i: int, j: int| 0 <= i < j < platforms.len() ==> platforms[i].0 != platforms[j].0
}

/// The platform `name` stands at index `i`.
pub open spec fn named_at(platforms: Seq<(Seq<char>, bool)>, name: Seq<char>, i: int) -> bool {
    0 <= i < platforms.len() && platforms[i].0 == name
}

/// The platforms after `name` is switched: the platform of that name has the
/// new setting, and a name not seen before joins at the end.
pub open spec fn toggled(platforms: Seq<(Seq<char>, bool)>, name: Seq<char>, active: bool) -> Seq<
    (Seq<char>, bool),
> {
    if exists|i: int| named_at(platforms, name, i) {
        platforms.update(choose|i: int| named_at(platforms, name, i), (name, active))
    } else {
        platforms.push((name, active))
    }
}

/// The names of the platforms that are switched on, in order.
pub open spec fn enabled_names(platforms: Seq<(Seq<char>, bool)>) -> Seq<Seq<char>>
    decreases platforms.len(),
{
    if platforms.len() == 0 {
        Seq::empty()
    } else if platforms.last().1 {
        enabled_names(platforms.drop_last()).push(platforms.last().0)
    } else {
        enabled_names(platforms.drop_last())
    }
}

/// The composer after a message.
pub open spec fn updated(c: ComposerView, message: Message) -> ComposerView {
    match message {
        Message::ContentChanged(content) => ComposerView { content: content@, ..c },
        Message::ImageSelected(Some(path)) => ComposerView {
            selected_images: c.selected_images.push(path@),
            ..c
        },
        Message::PlatformToggled(name, active) => ComposerView {
            platforms: toggled(c.platforms, name@, active),
            ..c
        },
        _ => c,
    }
}

/// The post being composed.
#[derive(Debug)]
pub struct Composer {
    content: String,
    selected_images: Vec<String>,
    platforms: Vec<PlatformChoice>,
}

impl View for Composer {
    type V = ComposerView;

    closed spec fn view(&self) -> ComposerView {
        ComposerView {
            content: self.content@,
            selected_images: texts(self.selected_images@),
            platforms: Seq::new(
                self.platforms@.len(),
                |i: int| (self.platforms@[i].name@, self.platforms@[i].active),
            ),
        }
    }
}

impl Composer {
    /// An empty post, to go to Mastodon and to Bluesky.
    pub fn new() -> (r: Composer)
        ensures
            r@ == (ComposerView {
                content: Seq::empty(),
                selected_images: Seq::empty(),
                platforms: seq![("mastodon"@, true), ("bluesky"@, true)],
            }),
            distinct_names(r@.platforms),
    {
        let mut platforms: Vec<PlatformChoice> = Vec::new();
        platforms.push(PlatformChoice { name: String::from_str("mastodon"), active: true });
        platforms.push(PlatformChoice { name: String::from_str("bluesky"), active: true });
        let r = Composer { content: String::new(), selected_images: Vec::new(), platforms };
        proof {
            reveal_strlit("mastodon");
            reveal_strlit("bluesky");
            assert("mastodon"@.len() != "bluesky"@.len());
            assert(r@.platforms =~= seq![("mastodon"@, true), ("bluesky"@, true)]);
            assert(r@.selected_images =~= Seq::<Seq<char>>::empty());
        }
        r
    }

    /// Takes a message as [`updated`] says. Pressing the attach button asks
    /// for the file dialog; nothing else asks for anything. Scheduling and
    /// saving are the caller's to carry out: they leave the composer as it
    /// is.
    pub fn update(&mut self, message: Message) -> (r: ComposerAction)
        requires
            distinct_names(old(self)@.platforms),
        ensures
            final(self)@ == updated(old(self)@, message),
            distinct_names(final(self)@.platforms),
            r == if message is AttachImagePressed {
                ComposerAction::PickImage
            } else {
                ComposerAction::Nothing
            },
    {
        match message {
            Message::ContentChanged(content) => {
                self.content = content;
                ComposerAction::Nothing
            },
            Message::AttachImagePressed => ComposerAction::PickImage,
            Message::ImageSelected(path) => {
                match path {
                    Some(path) => {
                        let ghost before = self@;
                        self.selected_images.push(path);
                        assert(self@.selected_images =~= before.selected_images.push(path@));
                        assert(self@.platforms =~= before.platforms);
                    },
                    None => {},
                }
                ComposerAction::Nothing
            },
            Message::PlatformToggled(name, active) => {
                self.toggle(name, active);
                ComposerAction::Nothing
            },
            Message::SchedulePressed => ComposerAction::Nothing,
            Message::SaveDraftPressed => ComposerAction::Nothing,
        }
    }

    /// The index at which the platform `name` stands.
    fn find(&self, name: &String) -> (r: Option<usize>)
        requires
            distinct_names(self@.platforms),
        ensures
            match r {
                Some(i) => i < self.platforms@.len() && named_at(self@.platforms, name@, i as int)
                    && (choose|c: int| named_at(self@.platforms, name@, c)) == i,
                None => !exists|c: int| named_at(self@.platforms, name@, c),
            },
    {
        let ghost all = self@.platforms;
        let mut i: usize = 0;
        while i < self.platforms.len()
            invariant
                i <= self.platforms@.len(),
                all == self@.platforms,
                all.len() == self.platforms@.len(),
                distinct_names(all),
                forall|k: int| 0 <= k < i ==> !named_at(all, name@, k),
            decreases self.platforms@.len() - i,
        {
            if self.platforms[i].name == *name {
                assert(named_at(all, name@, i as int));
                let ghost c = choose|c: int| named_at(all, name@, c);
                assert(c == i) by {
                    if c < i {
                        assert(all[c].0 != all[i as int].0);
                    } else if i < c {
                        assert(all[i as int].0 != all[c].0);
                    }
                }
                return Some(i);
            }
            i = i + 1;
        }
        None
    }

    /// Switches the platform `name` on or off.
    fn toggle(&mut self, name: String, active: bool)
        requires
            distinct_names(old(self)@.platforms),
        ensures
            final(self)@ == (ComposerView {
                platforms: toggled(old(self)@.platforms, name@, active),
                ..old(self)@
            }),
            distinct_names(final(self)@.platforms),
    {
        let ghost before = self@;
        match self.find(&name) {
            Some(i) => {
                self.platforms.set(i, PlatformChoice { name, active });
                assert(self@.platforms =~= before.platforms.update(i as int, (name@, active)));
                assert(self@.selected_images =~= before.selected_images);
            },
            None => {
                self.platforms.push(PlatformChoice { name, active });
                assert(self@.platforms =~= before.platforms.push((name@, active)));
                assert(self@.selected_images =~= before.selected_images);
                assert forall|j: int, k: int|
                    0 <= j < k < self@.platforms.len() implies self@.platforms[j].0
                    != self@.platforms[k].0 by {
                    if k == before.platforms.len() {
                        assert(!named_at(before.platforms, name@, j));
                    }
                }
            },
        }
    }

    /// The text of the post.
    pub fn content(&self) -> (r: &str)
        ensures
            r@ == self@.content,
    {
        self.content.as_str()
    }

    /// The paths of the attached images, in the order in which they were
    /// attached.
    pub fn media_paths(&self) -> (r: Vec<String>)
        ensures
            texts(r@) == self@.selected_images,
    {
        copy_texts(&self.selected_images)
    }

    /// The names of the platforms that are switched on, in the order in
    /// which the names were first seen.
    pub fn enabled_platforms(&self) -> (r: Vec<String>)
        ensures
            texts(r@) == enabled_names(self@.platforms),
    {
        let ghost all = self@.platforms;
        let mut out: Vec<String> = Vec::new();
        let mut i: usize = 0;
        assert(texts(out@) =~= enabled_names(all.take(0)));
        while i < self.platforms.len()
            invariant
                i <= self.platforms@.len(),
                all == self@.platforms,
                all.len() == self.platforms@.len(),
                texts(out@) == enabled_names(all.take(i as int)),
            decreases self.platforms@.len() - i,
        {
            let ghost so_far = texts(out@);
            assert(all.take(i + 1).drop_last() =~= all.take(i as int));
            assert(all.take(i + 1).last() == all[i as int]);
            if self.platforms[i].active {
                out.push(self.platforms[i].name.clone());
                assert(texts(out@) =~= so_far.push(all[i as int].0));
            }
            i = i + 1;
        }
        assert(all.take(i as int) =~= all);
        out
    }

    /// Empties the text and drops the attached images. The platforms stay as
    /// they are.
    pub fn clear(&mut self)
        ensures
            final(self)@ == (ComposerView {
                content: Seq::empty(),
                selected_images: Seq::empty(),
                ..old(self)@
            }),
    {
        let ghost before = self@;
        self.content = String::new();
        self.selected_images.clear();
        assert(self@.selected_images =~= Seq::<Seq<char>>::empty());
        assert(self@.platforms =~= before.platforms);
    }
}

/// Every enabled name is the name of a platform that is switched on.
pub proof fn lemma_enabled_are_named(platforms: Seq<(Seq<char>, bool)>, k: int)
    requires
        0 <= k < enabled_names(platforms).len(),
    ensures
        exists|i: int| named_at(platforms, enabled_names(platforms)[k], i) && platforms[i].1,
    decreases platforms.len(),
{
    if platforms.len() > 0 {
        let front = platforms.drop_last();
        let last = platforms.len() - 1;
        if platforms.last().1 && k == enabled_names(front).len() {
            assert(named_at(platforms, enabled_names(platforms)[k], last));
        } else {
            lemma_enabled_are_named(front, k);
            let i = choose|i: int| named_at(front, enabled_names(front)[k], i) && front[i].1;
            assert(named_at(platforms, enabled_names(platforms)[k], i) && platforms[i].1);
        }
    }
}

} // verus!
