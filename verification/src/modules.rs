//! The modules that a strip is composed of.
//!
//! A module paints nothing and reads nothing itself. It is handed what was
//! read for it and how large its texts are, and renders to a list of paint
//! commands and the cursor after it.

use vstd::prelude::*;
use crate::config::BATTERY_INTERVAL;
use crate::config::INTERVAL;
use crate::generator::Generator;
use crate::geometry::DynamicConfig;
use crate::geometry::texts;
use crate::modules::basebar::BaseBar;
use crate::modules::battery::all_readable;
use crate::modules::battery::Battery;
use crate::modules::battery::BatteryView;
use crate::modules::battery::lemma_batteries_cursor_shift;
use crate::modules::battery::spec_labels;
use crate::modules::clock::Clock;
use crate::modules::herbstluftwm::HerbstluftWM;
use crate::modules::herbstluftwm::lemma_tags_cursor_shift;
use crate::modules::herbstluftwm::spec_tags;
use crate::modules::herbstluftwm::split_entries;
use crate::modules::herbstluftwm::Tag;
use crate::modules::herbstluftwm::tag_views;
use crate::modules::herbstluftwm::TagView;
use crate::textbox::command_views;
use crate::textbox::DrawCommand;
use crate::textbox::DrawCommandView;
use crate::textbox::is_position;
use crate::textbox::TextExtent;

pub mod basebar;
pub mod battery;
pub mod clock;
pub mod herbstluftwm;

verus! {

/// What a module draws, and where the cursor stands after it.
#[derive(Debug)]
pub struct Rendered {
    pub commands: Vec<DrawCommand>,
    pub cursor: i64,
}

/// A rendering over mathematical integers and characters.
pub struct RenderedView {
    pub commands: Seq<DrawCommandView>,
    pub cursor: int,
}

impl View for Rendered {
    type V = RenderedView;

    open spec fn view(&self) -> RenderedView {
        RenderedView { commands: command_views(self.commands@), cursor: self.cursor as int }
    }
}

/// What has to be read for a module before it can be rendered.
#[derive(Debug)]
pub enum Source {
    /// Nothing.
    Nothing,
    /// One line: the whole answer of `tag_status` for the monitor.
    TagStatus { monitor: i32 },
    /// One line: the text of the clock.
    LocalTime,
    /// One line for each path: the first line of the file.
    Capacity { paths: Vec<String> },
}

/// A module of the strip: one of a fixed set of kinds.
#[derive(Debug)]
pub enum BarModule {
    BaseBar(BaseBar),
    HerbstluftWM(HerbstluftWM),
    Clock(Clock),
    Battery(Battery),
}

/// A module over characters.
pub enum BarModuleView {
    BaseBar,
    HerbstluftWM,
    Clock,
    Battery(BatteryView),
}

impl View for BarModule {
    type V = BarModuleView;

    open spec fn view(&self) -> BarModuleView {
        match *self {
            BarModule::BaseBar(_) => BarModuleView::BaseBar,
            BarModule::HerbstluftWM(_) => BarModuleView::HerbstluftWM,
            BarModule::Clock(_) => BarModuleView::Clock,
            BarModule::Battery(b) => BarModuleView::Battery(b@),
        }
    }
}

/// The views of a list of modules.
pub open spec fn module_views(modules: Seq<BarModule>) -> Seq<BarModuleView> {
    modules.map_values(|m: BarModule| m@)
}

/// The names of a list of tags.
pub open spec fn tag_names(tags: Seq<TagView>) -> Seq<Seq<char>> {
    Seq::new(tags.len(), |i: int| tags[i].name)
}

impl BarModuleView {
    /// The texts that the module shows for the lines read for it, in the
    /// order of their extents. There are none where the lines are not what
    /// the module reads.
    pub open spec fn labels(self, lines: Seq<Seq<char>>) -> Option<Seq<Seq<char>>> {
        match self {
            BarModuleView::BaseBar => Some(seq![]),
            BarModuleView::HerbstluftWM => if lines.len() == 1 {
                Some(tag_names(spec_tags(split_entries(lines[0]))))
            } else {
                None
            },
            BarModuleView::Clock => if lines.len() == 1 {
                Some(seq![lines[0]])
            } else {
                None
            },
            BarModuleView::Battery(b) => if lines.len() == b.dirs.len() && all_readable(lines) {
                Some(spec_labels(lines))
            } else {
                None
            },
        }
    }

    /// What the module draws at `align` from the lines read for it and the
    /// extents of its texts, and the cursor after it. There is no rendering
    /// where the lines are not what the module reads, where the extents are
    /// not one for each text, and where the cursor would leave the
    /// positions.
    pub open spec fn render(
        self,
        dyn_config: DynamicConfig,
        align: int,
        lines: Seq<Seq<char>>,
        extents: Seq<TextExtent>,
    ) -> Option<RenderedView> {
        match self {
            BarModuleView::BaseBar => Some(BaseBar::spec_render(align)),
            BarModuleView::HerbstluftWM => if lines.len() == 1 {
                HerbstluftWM::spec_render(
                    dyn_config,
                    align,
                    spec_tags(split_entries(lines[0])),
                    extents,
                )
            } else {
                None
            },
            BarModuleView::Clock => if lines.len() == 1 && extents.len() == 1 {
                Clock::spec_render(dyn_config, align, lines[0], extents[0])
            } else {
                None
            },
            BarModuleView::Battery(b) => Battery::spec_render_view(
                b,
                dyn_config,
                align,
                lines,
                extents,
            ),
        }
    }

    /// How the module learns that it has changed.
    pub open spec fn event_generator(self) -> Generator {
        match self {
            BarModuleView::BaseBar => Generator::Static,
            BarModuleView::HerbstluftWM => Generator::Stream,
            BarModuleView::Clock => Generator::Timer { interval: INTERVAL },
            BarModuleView::Battery(_) => Generator::Timer { interval: BATTERY_INTERVAL },
        }
    }
}

/// A module moves the cursor by the same distance wherever it stands: where
/// it can be rendered at `a`, it can be rendered at every `b` from which
/// that distance leads to a position, and moves the cursor as far.
pub proof fn lemma_render_shifts(
    module: BarModuleView,
    dyn_config: DynamicConfig,
    lines: Seq<Seq<char>>,
    extents: Seq<TextExtent>,
    a: int,
    b: int,
)
    requires
        module.render(dyn_config, a, lines, extents) is Some,
        is_position(b + (module.render(dyn_config, a, lines, extents)->0.cursor - a)),
    ensures
        module.render(dyn_config, b, lines, extents) is Some,
        module.render(dyn_config, b, lines, extents)->0.cursor - b == module.render(
            dyn_config,
            a,
            lines,
            extents,
        )->0.cursor - a,
{
    match module {
        BarModuleView::BaseBar => {},
        BarModuleView::HerbstluftWM => {
            let n = extents.len();
            lemma_tags_cursor_shift(extents, n, a + dyn_config.height);
            lemma_tags_cursor_shift(extents, n, b + dyn_config.height);
        },
        BarModuleView::Clock => {},
        BarModuleView::Battery(_) => {
            let n = extents.len();
            lemma_batteries_cursor_shift(extents, dyn_config.height, n, a);
            lemma_batteries_cursor_shift(extents, dyn_config.height, n, b);
        },
    }
}

impl Clone for BarModule {
    fn clone(&self) -> (copy: BarModule)
        ensures
            copy@ == self@,
    {
        match self {
            BarModule::BaseBar(_) => BarModule::BaseBar(BaseBar {  }),
            BarModule::HerbstluftWM(_) => BarModule::HerbstluftWM(HerbstluftWM {  }),
            BarModule::Clock(_) => BarModule::Clock(Clock {  }),
            BarModule::Battery(b) => BarModule::Battery(b.clone()),
        }
    }
}

impl BarModule {
    /// What has to be read for the module before each rendering.
    pub fn source(&self, dyn_config: DynamicConfig) -> (source: Source)
        ensures
            match self@ {
                BarModuleView::BaseBar => source is Nothing,
                BarModuleView::HerbstluftWM => source == (Source::TagStatus {
                    monitor: dyn_config.monitor,
                }),
                BarModuleView::Clock => source is LocalTime,
                BarModuleView::Battery(b) => {
                    &&& source is Capacity
                    &&& source->paths.len() == b.dirs.len()
                    &&& forall|i: int|
                        0 <= i < b.dirs.len() ==> (#[trigger] source->paths[i])@ == b.dirs[i]
                            + "capacity"@
                },
            },
    {
        match self {
            BarModule::BaseBar(_) => Source::Nothing,
            BarModule::HerbstluftWM(_) => Source::TagStatus { monitor: dyn_config.monitor },
            BarModule::Clock(_) => Source::LocalTime,
            BarModule::Battery(b) => {
                let paths = b.capacity_paths();
                assert forall|i: int| 0 <= i < b@.dirs.len() implies (#[trigger] paths[i])@
                    == b@.dirs[i] + "capacity"@ by {
                    assert(b@.dirs[i] == b.dirs[i]@);
                }
                Source::Capacity { paths }
            },
        }
    }

    /// The texts that the module will show, to be measured before it is
    /// rendered.
    pub fn labels(&self, lines: &Vec<String>) -> (labels: Option<Vec<String>>)
        ensures
            match labels {
                Some(l) => self@.labels(texts(lines@)) == Some(texts(l@)),
                None => self@.labels(texts(lines@)) is None,
            },
    {
        match self {
            BarModule::BaseBar(_) => {
                let labels: Vec<String> = Vec::new();
                assert(texts(labels@) =~= Seq::<Seq<char>>::empty());
                Some(labels)
            },
            BarModule::HerbstluftWM(_) => {
                if lines.len() != 1 {
                    return None;
                }
                assert(texts(lines@)[0] == lines[0]@);
                let tags = Tag::read_hlwm_tags(lines[0].as_str());
                let mut labels: Vec<String> = Vec::new();
                let mut i: usize = 0;
                while i < tags.len()
                    invariant
                        i <= tags.len(),
                        labels.len() == i,
                        forall|j: int| 0 <= j < i ==> labels[j]@ == tags[j].name@,
                    decreases tags.len() - i,
                {
                    labels.push(tags[i].name.clone());
                    i = i + 1;
                }
                assert(texts(labels@) =~= tag_names(tag_views(tags@)));
                Some(labels)
            },
            BarModule::Clock(_) => {
                if lines.len() != 1 {
                    return None;
                }
                let mut labels: Vec<String> = Vec::new();
                labels.push(lines[0].clone());
                assert(texts(labels@) =~= seq![texts(lines@)[0]]);
                Some(labels)
            },
            BarModule::Battery(b) => b.labels(lines),
        }
    }

    /// Renders the module at `align`.
    pub fn render(
        &self,
        dyn_config: DynamicConfig,
        align: i64,
        lines: &Vec<String>,
        extents: &Vec<TextExtent>,
    ) -> (out: Option<Rendered>)
        ensures
            match out {
                Some(r) => self@.render(dyn_config, align as int, texts(lines@), extents@) == Some(
                    r@,
                ),
                None => self@.render(dyn_config, align as int, texts(lines@), extents@) is None,
            },
    {
        match self {
            BarModule::BaseBar(m) => Some(m.render(dyn_config, align)),
            BarModule::HerbstluftWM(m) => {
                if lines.len() != 1 {
                    return None;
                }
                assert(texts(lines@)[0] == lines[0]@);
                let tags = Tag::read_hlwm_tags(lines[0].as_str());
                m.render(dyn_config, align, &tags, extents)
            },
            BarModule::Clock(m) => {
                if lines.len() != 1 || extents.len() != 1 {
                    return None;
                }
                assert(texts(lines@)[0] == lines[0]@);
                m.render(dyn_config, align, lines[0].as_str(), extents[0])
            },
            BarModule::Battery(m) => m.render(dyn_config, align, lines, extents),
        }
    }

    /// How the module learns that it has changed.
    pub fn event_generator(&self) -> (generator: Generator)
        ensures
            generator == self@.event_generator(),
    {
        match self {
            BarModule::BaseBar(_) => Generator::Static,
            BarModule::HerbstluftWM(_) => Generator::Stream,
            BarModule::Clock(_) => Generator::Timer { interval: INTERVAL },
            BarModule::Battery(_) => Generator::Timer { interval: BATTERY_INTERVAL },
        }
    }
}

} // verus!
