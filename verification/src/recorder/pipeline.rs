//! The processors that a sealed trace segment runs through.

use vstd::prelude::*;

use crate::error::IoError;

verus! {

/// The client of the `aws-sdk-s3` crate, which the pipeline only passes on.
#[verifier::external_type_specification]
#[verifier::external_body]
pub struct ExClient(aws_sdk_s3::Client);

/// Where sealed segments are uploaded to, and what identifies the uploader.
#[derive(Debug)]
pub struct S3Config {
    pub bucket: String,
    pub service_name: String,
    pub instance_path: Option<String>,
    pub boot_id: Option<String>,
}

/// One metadata entry: its name and its value.
pub type Entry = (String, String);

/// The texts of the entries.
pub open spec fn entry_texts(entries: Seq<Entry>) -> Seq<(Seq<char>, Seq<char>)> {
    entries.map_values(|e: Entry| (e.0@, e.1@))
}

/// An entry, where there is a value for it.
pub open spec fn optional_entry(name: Seq<char>, value: Option<String>) -> Seq<
    (Seq<char>, Seq<char>),
> {
    match value {
        Some(value) => seq![(name, value@)],
        None => Seq::empty(),
    }
}

impl S3Config {
    /// The entries that identify the uploader in a trace.
    pub open spec fn metadata(&self) -> Seq<(Seq<char>, Seq<char>)> {
        seq![("bucket"@, self.bucket@), ("service_name"@, self.service_name@)] + optional_entry(
            "instance_path"@,
            self.instance_path,
        ) + optional_entry("boot_id"@, self.boot_id)
    }

    /// A configuration without an instance path and a boot identity.
    pub fn new(bucket: String, service_name: String) -> (config: S3Config)
        ensures
            config == (S3Config { bucket, service_name, instance_path: None, boot_id: None }),
    {
        S3Config { bucket, service_name, instance_path: None, boot_id: None }
    }

    /// Sets the path that identifies the instance.
    pub fn with_instance_path(self, instance_path: String) -> (config: S3Config)
        ensures
            config == (S3Config { instance_path: Some(instance_path), ..self }),
    {
        let mut config = self;
        config.instance_path = Some(instance_path);
        config
    }

    /// Sets the identity of the boot.
    pub fn with_boot_id(self, boot_id: String) -> (config: S3Config)
        ensures
            config == (S3Config { boot_id: Some(boot_id), ..self }),
    {
        let mut config = self;
        config.boot_id = Some(boot_id);
        config
    }

    /// The entries that identify the uploader in a trace.
    pub fn as_metadata(&self) -> (entries: Vec<Entry>)
        ensures
            entry_texts(entries@) == self.metadata(),
    {
        let mut entries: Vec<Entry> = Vec::new();
        entries.push(("bucket".to_owned(), self.bucket.clone()));
        entries.push(("service_name".to_owned(), self.service_name.clone()));
        if let Some(instance_path) = &self.instance_path {
            entries.push(("instance_path".to_owned(), instance_path.clone()));
        }
        if let Some(boot_id) = &self.boot_id {
            entries.push(("boot_id".to_owned(), boot_id.clone()));
        }
        assert(entry_texts(entries@) =~= self.metadata());
        entries
    }
}

/// Uploads segments, through a given client or through one of its own making.
pub struct S3PipelineUploader {
    pub config: S3Config,
    pub client: Option<aws_sdk_s3::Client>,
}

impl S3PipelineUploader {
    /// An uploader for `config`.
    pub fn new(config: S3Config, client: Option<aws_sdk_s3::Client>) -> (uploader:
        S3PipelineUploader)
        ensures
            uploader == (S3PipelineUploader { config, client }),
    {
        S3PipelineUploader { config, client }
    }

    /// Binds a client, in place of one bound before.
    pub fn set_client(&mut self, client: aws_sdk_s3::Client)
        ensures
            *final(self) == (S3PipelineUploader { client: Some(client), ..*old(self) }),
    {
        self.client = Some(client);
    }

    /// Takes the bound client away.
    pub fn take_client(&mut self) -> (client: Option<aws_sdk_s3::Client>)
        ensures
            client == old(self).client,
            *final(self) == (S3PipelineUploader { client: None, ..*old(self) }),
    {
        self.client.take()
    }
}

/// A processor that the embedding program supplies.
pub trait SegmentProcessor: Send {
    /// The name of the processor.
    fn name(&self) -> String;

    /// Works on the bytes of a sealed segment and gives those that the next
    /// step works on.
    fn process(&mut self, segment: Vec<u8>) -> Result<Vec<u8>, IoError>;
}

/// One step of a pipeline.
pub enum Processor {
    /// Adds symbols to stack frames.
    Symbolize,
    /// Compresses the segment.
    Gzip,
    /// Writes the segment back to where it was sealed.
    WriteBack,
    /// Uploads the segment.
    S3(S3PipelineUploader),
    /// A processor of the embedding program.
    User(Box<dyn SegmentProcessor>),
}

/// Puts a custom pipeline together, step by step.
pub struct PipelineBuilder {
    pub processors: Vec<Processor>,
}

impl PipelineBuilder {
    /// An empty pipeline.
    pub fn new() -> (builder: PipelineBuilder)
        ensures
            builder.processors@ == Seq::<Processor>::empty(),
    {
        PipelineBuilder { processors: Vec::new() }
    }

    /// Adds a step.
    fn step(self, processor: Processor) -> (builder: PipelineBuilder)
        ensures
            builder.processors@ == self.processors@.push(processor),
    {
        let mut builder = self;
        builder.processors.push(processor);
        builder
    }

    /// Adds symbols to stack frames.
    pub fn symbolize(self) -> (builder: PipelineBuilder)
        ensures
            builder.processors@ == self.processors@.push(Processor::Symbolize),
    {
        self.step(Processor::Symbolize)
    }

    /// Compresses the segment.
    pub fn gzip(self) -> (builder: PipelineBuilder)
        ensures
            builder.processors@ == self.processors@.push(Processor::Gzip),
    {
        self.step(Processor::Gzip)
    }

    /// Writes the segment back to where it was sealed.
    pub fn write_back(self) -> (builder: PipelineBuilder)
        ensures
            builder.processors@ == self.processors@.push(Processor::WriteBack),
    {
        self.step(Processor::WriteBack)
    }

    /// Uploads the segment.
    pub fn s3(self, config: S3Config) -> (builder: PipelineBuilder)
        ensures
            builder.processors@ == self.processors@.push(
                Processor::S3(S3PipelineUploader { config, client: None }),
            ),
    {
        self.step(Processor::S3(S3PipelineUploader::new(config, None)))
    }

    /// Adds a processor of the embedding program.
    pub fn pipe(self, processor: Box<dyn SegmentProcessor>) -> (builder: PipelineBuilder)
        ensures
            builder.processors@ == self.processors@.push(Processor::User(processor)),
    {
        self.step(Processor::User(processor))
    }

    /// The pipeline that was put together.
    pub fn into_processors(self) -> (processors: Vec<Processor>)
        ensures
            processors@ == self.processors@,
    {
        self.processors
    }
}

/// The chosen pipeline strategy.
pub enum PipelineConfig {
    /// None was chosen.
    Unset,
    /// The S3 preset.
    S3(S3PipelineUploader),
    /// A custom pipeline.
    Custom(Vec<Processor>),
}

/// The strategy after a client was bound to its uploader.
pub open spec fn client_bound(
    pipeline: PipelineConfig,
    client: aws_sdk_s3::Client,
) -> PipelineConfig {
    match pipeline {
        PipelineConfig::S3(uploader) => PipelineConfig::S3(
            S3PipelineUploader { client: Some(client), ..uploader },
        ),
        _ => pipeline,
    }
}

/// The S3 preset for `config`, with the client that was bound before.
pub open spec fn uploader_replaced(pipeline: PipelineConfig, config: S3Config) -> PipelineConfig {
    PipelineConfig::S3(
        S3PipelineUploader {
            config,
            client: match pipeline {
                PipelineConfig::S3(uploader) => uploader.client,
                _ => None,
            },
        },
    )
}

/// Binding a client and replacing the configuration of the S3 preset can be
/// done in either order.
pub proof fn law_client_and_config_in_either_order(
    uploader: S3PipelineUploader,
    client: aws_sdk_s3::Client,
    config: S3Config,
)
    ensures
        uploader_replaced(client_bound(PipelineConfig::S3(uploader), client), config)
            == client_bound(uploader_replaced(PipelineConfig::S3(uploader), config), client),
        uploader_replaced(client_bound(PipelineConfig::S3(uploader), client), config)
            == PipelineConfig::S3(S3PipelineUploader { config, client: Some(client) }),
{
}

/// Only the presets add symbols: a custom pipeline stays what it is whether or
/// not CPU time is profiled, and the presets differ by the leading step alone.
pub proof fn law_profiling_adds_only_symbols(pipeline: PipelineConfig)
    ensures
        match pipeline {
            PipelineConfig::Custom(user) => assembled(true, pipeline) == assembled(false, pipeline),
            PipelineConfig::S3(uploader) => assembled(true, pipeline) == seq![
                Processor::Symbolize,
            ] + assembled(false, pipeline),
            PipelineConfig::Unset => assembled(false, pipeline).len() == 0,
        },
{
    if pipeline is S3 {
        assert(assembled(true, pipeline) =~= seq![Processor::Symbolize] + assembled(
            false,
            pipeline,
        ));
    }
}

/// The pipeline of each strategy. The presets begin with symbols where CPU
/// profiling is on; a custom pipeline is what it is.
pub open spec fn assembled(cpu_profiling_enabled: bool, pipeline: PipelineConfig) -> Seq<
    Processor,
> {
    let symbols = if cpu_profiling_enabled {
        seq![Processor::Symbolize]
    } else {
        Seq::empty()
    };
    match pipeline {
        PipelineConfig::Unset => if cpu_profiling_enabled {
            seq![Processor::Symbolize, Processor::Gzip, Processor::WriteBack]
        } else {
            Seq::empty()
        },
        PipelineConfig::S3(uploader) => symbols + seq![Processor::Gzip, Processor::S3(uploader)],
        PipelineConfig::Custom(user) => user@,
    }
}

/// Builds the final pipeline. Without a strategy and without CPU profiling it
/// is empty.
pub fn assemble_processors(cpu_profiling_enabled: bool, pipeline: PipelineConfig) -> (processors:
    Vec<Processor>)
    ensures
        processors@ == assembled(cpu_profiling_enabled, pipeline),
{
    let mut processors: Vec<Processor> = Vec::new();
    match pipeline {
        PipelineConfig::Unset => {
            if cpu_profiling_enabled {
                processors.push(Processor::Symbolize);
                processors.push(Processor::Gzip);
                processors.push(Processor::WriteBack);
            }
        },
        PipelineConfig::S3(uploader) => {
            if cpu_profiling_enabled {
                processors.push(Processor::Symbolize);
            }
            processors.push(Processor::Gzip);
            processors.push(Processor::S3(uploader));
            assert(processors@ =~= assembled(cpu_profiling_enabled, pipeline));
        },
        PipelineConfig::Custom(user) => {
            return user;
        },
    }
    processors
}

/// Each strategy has the pipeline that the presets promise: without one,
/// symbols, compression and writing back where CPU time is profiled and nothing
/// where it is not; the S3 preset compresses and uploads, after symbols where
/// CPU time is profiled; a custom pipeline is what was given.
pub proof fn law_pipeline_of_each_strategy(
    uploader: S3PipelineUploader,
    user: Vec<Processor>,
    profiled: bool,
)
    ensures
        assembled(true, PipelineConfig::Unset) == seq![
            Processor::Symbolize,
            Processor::Gzip,
            Processor::WriteBack,
        ],
        assembled(false, PipelineConfig::Unset) == Seq::<Processor>::empty(),
        assembled(true, PipelineConfig::S3(uploader)) == seq![
            Processor::Symbolize,
            Processor::Gzip,
            Processor::S3(uploader),
        ],
        assembled(false, PipelineConfig::S3(uploader)) == seq![
            Processor::Gzip,
            Processor::S3(uploader),
        ],
        assembled(profiled, PipelineConfig::Custom(user)) == user@,
{
    assert(assembled(true, PipelineConfig::S3(uploader)) =~= seq![
        Processor::Symbolize,
        Processor::Gzip,
        Processor::S3(uploader),
    ]);
    assert(assembled(false, PipelineConfig::S3(uploader)) =~= seq![
        Processor::Gzip,
        Processor::S3(uploader),
    ]);
}

/// The metadata names the bucket and the service, then the instance and the
/// boot where they are known, each with its own value.
pub proof fn law_metadata_identifies_the_uploader(config: S3Config)
    ensures
        config.metadata().len() == 2 + (if config.instance_path is Some {
            1int
        } else {
            0
        }) + (if config.boot_id is Some {
            1int
        } else {
            0
        }),
        config.metadata()[0] == ("bucket"@, config.bucket@),
        config.metadata()[1] == ("service_name"@, config.service_name@),
        config.instance_path matches Some(path) ==> config.metadata()[2] == (
            "instance_path"@,
            path@,
        ),
        config.boot_id matches Some(boot) ==> config.metadata().last() == ("boot_id"@, boot@),
{
}

/// The texts of entries are as many as the entries, one for each.
pub proof fn law_each_entry_has_its_texts(entries: Seq<Entry>, i: int)
    requires
        0 <= i < entries.len(),
    ensures
        entry_texts(entries).len() == entries.len(),
        entry_texts(entries)[i].0 == entries[i].0@,
        entry_texts(entries)[i].1 == entries[i].1@,
{
}

/// A client is bound to the S3 preset and to nothing else, in place of one that
/// was bound before.
pub proof fn law_clients_are_bound_to_uploaders(
    uploader: S3PipelineUploader,
    user: Vec<Processor>,
    config: S3Config,
    client: aws_sdk_s3::Client,
)
    ensures
        client_bound(PipelineConfig::S3(uploader), client) matches PipelineConfig::S3(bound)
            && bound.client == Some(client) && bound.config == uploader.config,
        client_bound(PipelineConfig::Unset, client) == PipelineConfig::Unset,
        client_bound(PipelineConfig::Custom(user), client) == PipelineConfig::Custom(user),
        uploader_replaced(PipelineConfig::S3(uploader), config) matches PipelineConfig::S3(kept)
            && kept.client == uploader.client && kept.config == config,
        uploader_replaced(PipelineConfig::Unset, config) matches PipelineConfig::S3(fresh)
            && fresh.client is None && fresh.config == config,
{
}

} // verus!
