use crate::demux::{
    classify_field, event_of_field, finish, next, rejection_error, step, Action, Event, Phase,
    Rejection, INCOMPLETE_MESSAGE, ORDER_MESSAGE,
};
use crate::derivation::{decode, decoded_outcome, derive_decoded, Artifacts};
use crate::error::{Error, ErrorKind};
use crate::geometry::{derived_sizes, CropRect, OUTSIDE_MESSAGE};
use crate::metadata::{RequestMetadata, RequestMetadataUpdate};
use crate::publish::{
    publish_plan, publish_steps, respond, retire_plan, retire_steps, staging_outcome, views,
    FsStep, StepView, UploadResponse, NO_DATA_MESSAGE,
};
use crate::ident::is_identifier;
use crate::imaging::png_image;
use crate::naming::ImageKind;
use crate::naming::checked_filename;
use crate::raster::Raster;
use crate::store::{staging_path, user_dir_path, ImageProps, Store};
use vstd::prelude::*;

verus! {

/// The image that an update replaces: its base name and its extension.
#[derive(Clone, Debug)]
pub struct PriorImage {
    pub img_name: String,
    pub img_ext: String,
}

/// What is to be done before the bytes of an accepted image field are
/// written: the directory to make sure of, if any, and the file to write.
#[derive(Clone, Debug)]
pub struct StagePlan {
    /// The user's directory, to be created if it is not there. An update
    /// names none: the image it replaces is in that directory already.
    pub ensure_dir: Option<String>,
    /// The staging file that the field's bytes go to.
    pub tmp_path: String,
}

/// One request, from its first field to its response.
#[derive(Clone, Debug)]
pub struct Upload {
    pub phase: Phase,
    pub crop: Option<CropRect>,
    pub user_id: Option<String>,
    pub prior: Option<PriorImage>,
    pub props: Option<ImageProps>,
}

impl Upload {
    /// What holds of a request in every phase: once it waits for its image
    /// it knows the crop and the user, and once it is complete it knows
    /// what the image is stored as.
    pub open spec fn wf(&self) -> bool {
        &&& (self.phase == Phase::AwaitingImage || self.phase == Phase::Complete) ==> self.crop
            is Some && self.user_id is Some
        &&& self.phase == Phase::Complete ==> self.props is Some
    }

    /// The steps that conclude a complete request whose image was derived
    /// into `medium` and `small`: the new image is published first, and
    /// only then the image it replaces, if any, is retired.
    pub open spec fn concluding_steps(&self, store: &Store, medium: Seq<u8>, small: Seq<u8>) -> Seq<
        StepView,
    > {
        let user = self.user_id->0@;
        let props = self.props->0;
        let publish = publish_steps(
            store.root@,
            user,
            props.img_name@,
            props.img_ext@,
            props.tmp_path@,
            medium,
            small,
        );
        match self.prior {
            None => publish,
            Some(prior) => publish + retire_steps(
                store.root@,
                store.trash@,
                user,
                prior.img_name@,
                prior.img_ext@,
            ),
        }
    }

    /// Decides `wf` at run time.
    pub fn check(&self) -> (ok: bool)
        ensures
            ok == self.wf(),
    {
        let known: bool = self.crop.is_some() && self.user_id.is_some();
        match self.phase {
            Phase::AwaitingImage => known,
            Phase::Complete => known && self.props.is_some(),
            _ => true,
        }
    }

    /// A request of which nothing has been seen.
    pub fn new() -> (upload: Upload)
        ensures
            upload.wf(),
            upload.phase == Phase::Start,
            upload.crop is None,
            upload.user_id is None,
            upload.prior is None,
            upload.props is None,
    {
        Upload { phase: Phase::Start, crop: None, user_id: None, prior: None, props: None }
    }

    /// A field with the given declared name begins: says what is to be done
    /// with it.
    pub fn on_field(&mut self, name: Option<&str>) -> (action: Action)
        requires
            old(self).wf(),
        ensures
            final(self).wf(),
            (final(self).phase, action) == next(old(self).phase, event_of_field(name)),
            final(self).crop == old(self).crop,
            final(self).user_id == old(self).user_id,
            final(self).prior == old(self).prior,
            final(self).props == old(self).props,
    {
        let (phase, action) = step(self.phase, classify_field(name));
        self.phase = phase;
        action
    }

    /// Reading, parsing or writing has failed: the request has failed.
    pub fn on_broken(&mut self)
        requires
            old(self).wf(),
        ensures
            final(self).wf(),
            final(self).phase == Phase::Failed,
            final(self).crop == old(self).crop,
            final(self).user_id == old(self).user_id,
            final(self).prior == old(self).prior,
            final(self).props == old(self).props,
    {
        let (phase, _action) = step(self.phase, Event::Broken);
        self.phase = phase;
    }

    /// The metadata has been parsed. The first metadata counts: where the
    /// request is past waiting for it, nothing changes.
    pub fn accept_metadata(&mut self, crop: CropRect, user_id: &str, prior: Option<PriorImage>)
        requires
            old(self).wf(),
        ensures
            final(self).wf(),
            final(self).phase == next(old(self).phase, Event::MetadataParsed).0,
            final(self).props == old(self).props,
            old(self).phase == Phase::Start || old(self).phase == Phase::AwaitingMetadata ==> {
                &&& final(self).crop == Some(crop)
                &&& final(self).user_id matches Some(user) && user@ == user_id@
                &&& final(self).prior == prior
            },
            !(old(self).phase == Phase::Start || old(self).phase == Phase::AwaitingMetadata) ==> {
                &&& final(self).crop == old(self).crop
                &&& final(self).user_id == old(self).user_id
                &&& final(self).prior == old(self).prior
            },
    {
        let first: bool = match self.phase {
            Phase::Start | Phase::AwaitingMetadata => true,
            _ => false,
        };
        let (phase, _action) = step(self.phase, Event::MetadataParsed);
        self.phase = phase;
        if first {
            self.crop = Some(crop);
            self.user_id = Some(user_id.to_owned());
            self.prior = prior;
        }
    }

    /// The metadata of an upload has been parsed.
    pub fn on_metadata(&mut self, meta: &RequestMetadata)
        requires
            old(self).wf(),
        ensures
            final(self).wf(),
            final(self).phase == next(old(self).phase, Event::MetadataParsed).0,
            final(self).props == old(self).props,
            old(self).phase == Phase::Start || old(self).phase == Phase::AwaitingMetadata ==> {
                &&& final(self).crop == Some(
                    CropRect { x: meta.x, y: meta.y, width: meta.width, height: meta.height },
                )
                &&& final(self).user_id matches Some(user) && user@ == meta.user_id@
                &&& final(self).prior is None
            },
            !(old(self).phase == Phase::Start || old(self).phase == Phase::AwaitingMetadata) ==> {
                &&& final(self).crop == old(self).crop
                &&& final(self).user_id == old(self).user_id
                &&& final(self).prior == old(self).prior
            },
    {
        self.accept_metadata(meta.crop(), meta.user_id.as_str(), None);
    }

    /// The metadata of an update has been parsed.
    pub fn on_metadata_update(&mut self, meta: &RequestMetadataUpdate)
        requires
            old(self).wf(),
        ensures
            final(self).wf(),
            final(self).phase == next(old(self).phase, Event::MetadataParsed).0,
            final(self).props == old(self).props,
            old(self).phase == Phase::Start || old(self).phase == Phase::AwaitingMetadata ==> {
                &&& final(self).crop == Some(
                    CropRect { x: meta.x, y: meta.y, width: meta.width, height: meta.height },
                )
                &&& final(self).user_id matches Some(user) && user@ == meta.user_id@
                &&& final(self).prior matches Some(prior) && prior.img_name@ == meta.img_name@
                    && prior.img_ext@ == meta.img_ext@
            },
            !(old(self).phase == Phase::Start || old(self).phase == Phase::AwaitingMetadata) ==> {
                &&& final(self).crop == old(self).crop
                &&& final(self).user_id == old(self).user_id
                &&& final(self).prior == old(self).prior
            },
    {
        let prior = PriorImage { img_name: meta.img_name.clone(), img_ext: meta.img_ext.clone() };
        self.accept_metadata(meta.crop(), meta.user_id.as_str(), Some(prior));
    }

    /// The image field is to be staged: checks its filename, names the
    /// image and says where its bytes go. A request that does not wait for
    /// its image, or a filename that is not accepted, fails the request.
    pub fn on_image(&mut self, store: &Store, filename: Option<&str>) -> (plan: Result<
        StagePlan,
        Error,
    >)
        requires
            old(self).wf(),
        ensures
            final(self).wf(),
            final(self).crop == old(self).crop,
            final(self).user_id == old(self).user_id,
            final(self).prior == old(self).prior,
            plan is Ok <==> old(self).phase == Phase::AwaitingImage && checked_filename(filename)
                is Ok,
            plan matches Ok(p) ==> {
                &&& final(self).phase == Phase::AwaitingImage
                &&& checked_filename(filename) matches Ok((ext, kind))
                &&& final(self).props matches Some(props)
                &&& props.img_ext@ == ext
                &&& props.kind == kind
                &&& is_identifier(props.img_name@)
                &&& props.tmp_path@ == staging_path(
                    store.root@,
                    old(self).user_id->0@,
                    props.img_name@,
                    ext,
                )
                &&& p.tmp_path@ == props.tmp_path@
                &&& match old(self).prior {
                    None => p.ensure_dir matches Some(dir) && dir@ == user_dir_path(
                        store.root@,
                        old(self).user_id->0@,
                    ),
                    Some(_) => p.ensure_dir is None,
                }
            },
            plan matches Err(e) ==> {
                &&& final(self).phase == Phase::Failed
                &&& final(self).props == old(self).props
                &&& e.kind == ErrorKind::Validation
                &&& if old(self).phase == Phase::AwaitingImage {
                    checked_filename(filename) matches Err(message) && e.message@ == message
                } else {
                    e.message@ == ORDER_MESSAGE@
                }
            },
    {
        match self.phase {
            Phase::AwaitingImage => {},
            _ => {
                self.phase = Phase::Failed;
                return Err(rejection_error(Rejection::ImageBeforeMetadata));
            },
        }
        let made = match &self.user_id {
            Some(user) => {
                match store.create_url(filename, user.as_str()) {
                    Ok(props) => {
                        let ensure_dir: Option<String> = match &self.prior {
                            None => Some(store.user_dir(user.as_str())),
                            Some(_) => None,
                        };
                        Ok((props, ensure_dir))
                    },
                    Err(e) => Err(e),
                }
            },
            None => Err(rejection_error(Rejection::ImageBeforeMetadata)),
        };
        match made {
            Ok((props, ensure_dir)) => {
                let tmp_path: String = props.tmp_path.clone();
                self.props = Some(props);
                Ok(StagePlan { ensure_dir, tmp_path })
            },
            Err(e) => {
                self.phase = Phase::Failed;
                Err(e)
            },
        }
    }

    /// The image field has been read to its end, in `chunks` chunks, each
    /// written to the staging file. A field without a chunk fails the
    /// request, and so does a report of staging for an image that was never
    /// accepted.
    pub fn on_staged(&mut self, chunks: usize) -> (out: Result<(), Error>)
        requires
            old(self).wf(),
        ensures
            final(self).wf(),
            final(self).crop == old(self).crop,
            final(self).user_id == old(self).user_id,
            final(self).prior == old(self).prior,
            final(self).props == old(self).props,
            out is Ok <==> chunks > 0 && !(old(self).phase == Phase::AwaitingImage && old(
                self,
            ).props is None),
            out is Ok ==> final(self).phase == next(old(self).phase, Event::ImageStaged).0,
            out matches Err(e) ==> {
                &&& final(self).phase == Phase::Failed
                &&& if chunks == 0 {
                    e.kind == ErrorKind::Io && e.message@ == NO_DATA_MESSAGE@
                } else {
                    e.kind == ErrorKind::Validation && e.message@ == INCOMPLETE_MESSAGE@
                }
            },
    {
        match staging_outcome(chunks) {
            Ok(()) => {},
            Err(e) => {
                self.phase = Phase::Failed;
                return Err(e);
            },
        }
        let unnamed: bool = match (&self.phase, &self.props) {
            (Phase::AwaitingImage, None) => true,
            _ => false,
        };
        if unnamed {
            self.phase = Phase::Failed;
            return Err(Error::new(ErrorKind::Validation, INCOMPLETE_MESSAGE));
        }
        let (phase, _action) = step(self.phase, Event::ImageStaged);
        self.phase = phase;
        Ok(())
    }

    /// The stream has ended and `source` is what the staging file decodes
    /// to: derives the two files and says which steps publish them, and
    /// what the response is once every step is made.
    ///
    /// A request that is not complete is a validation error. Otherwise the
    /// outcome is that of the derivation: its error, or the steps that
    /// publish what it derived, followed for an update by the steps that
    /// retire the image it replaces.
    pub fn conclude_decoded(&self, store: &Store, source: &Raster) -> (out: Result<
        (Vec<FsStep>, UploadResponse),
        Error,
    >)
        requires
            self.wf(),
        ensures
            self.phase != Phase::Complete ==> (out matches Err(e) && e.kind
                == ErrorKind::Validation && e.message@ == INCOMPLETE_MESSAGE@),
            self.phase == Phase::Complete ==> match decoded_outcome(
                source.pixels@,
                source.width,
                source.height,
                self.crop->0,
                self.props->0.kind,
            ) {
                Ok((sizes, medium, small)) => out matches Ok((plan, body)) && views(plan@)
                    == self.concluding_steps(store, medium, small) && body.img_name@
                    == self.props->0.img_name@ && body.img_ext@ == self.props->0.img_ext@
                    && body.img_md == Some(sizes.medium_height) && body.img_sm == Some(
                    sizes.small_height,
                ) && body.img_lg is None,
                Err((kind, message)) => out matches Err(e) && e.kind == kind && (
                message matches Some(text) ==> e.message@ == text),
            },
    {
        match finish(self.phase) {
            Ok(()) => {},
            Err(e) => {
                return Err(e);
            },
        }
        match (&self.crop, &self.user_id, &self.props) {
            (Some(crop), Some(user), Some(props)) => {
                let files: Artifacts = match derive_decoded(source, *crop, props.kind) {
                    Ok(files) => files,
                    Err(e) => {
                        return Err(e);
                    },
                };
                let body: UploadResponse = respond(props, files.sizes);
                let mut plan: Vec<FsStep> = publish_plan(store, user.as_str(), props, files);
                match &self.prior {
                    None => {},
                    Some(prior) => {
                        let ghost publish = views(plan@);
                        let mut retire: Vec<FsStep> = retire_plan(
                            store,
                            user.as_str(),
                            prior.img_name.as_str(),
                            prior.img_ext.as_str(),
                        );
                        let ghost moves = views(retire@);
                        plan.append(&mut retire);
                        assert(views(plan@) =~= publish + moves);
                    },
                }
                Ok((plan, body))
            },
            _ => Err(Error::new(ErrorKind::Validation, INCOMPLETE_MESSAGE)),
        }
    }

    /// The stream has ended and `staged` is what the staging file holds:
    /// decodes it in the format of the image's extension and concludes the
    /// request with what it decodes to.
    ///
    /// A request that is not complete is a validation error. For a PNG
    /// image the outcome of a complete one is that of what the bytes decode
    /// to, and a decode error where they do not decode. For a JPEG image
    /// what the bytes decode to is not known beforehand: whatever it is, a
    /// complete request ends in a decode error, the geometry error, or the
    /// steps that publish two files and, for an update, retire the image it
    /// replaces, with a response that gives the heights of the resize rule.
    pub fn conclude(&self, store: &Store, staged: &[u8]) -> (out: Result<
        (Vec<FsStep>, UploadResponse),
        Error,
    >)
        requires
            self.wf(),
        ensures
            self.phase != Phase::Complete ==> (out matches Err(e) && e.kind
                == ErrorKind::Validation && e.message@ == INCOMPLETE_MESSAGE@),
            self.phase == Phase::Complete ==> match out {
                Ok((plan, body)) => {
                    &&& exists|medium: Seq<u8>, small: Seq<u8>|
                        views(plan@) == #[trigger] self.concluding_steps(store, medium, small)
                    &&& body.img_name@ == self.props->0.img_name@
                    &&& body.img_ext@ == self.props->0.img_ext@
                    &&& body.img_md == Some(
                        derived_sizes(self.crop->0.width, self.crop->0.height).medium_height,
                    )
                    &&& body.img_sm == Some(
                        derived_sizes(self.crop->0.width, self.crop->0.height).small_height,
                    )
                    &&& body.img_lg is None
                },
                Err(e) => e.kind == ErrorKind::Decode || (e.kind == ErrorKind::Geometry
                    && e.message@ == OUTSIDE_MESSAGE@),
            },
            self.phase == Phase::Complete && self.props->0.kind == ImageKind::Png ==> match png_image(
                staged@,
            ) {
                Some((width, height, pixels)) => match decoded_outcome(
                    pixels,
                    width,
                    height,
                    self.crop->0,
                    ImageKind::Png,
                ) {
                    Ok((sizes, medium, small)) => out matches Ok((plan, body)) && views(plan@)
                        == self.concluding_steps(store, medium, small),
                    Err((kind, message)) => out matches Err(e) && e.kind == kind && (
                    message matches Some(text) ==> e.message@ == text),
                },
                None => out matches Err(e) && e.kind == ErrorKind::Decode,
            },
    {
        match finish(self.phase) {
            Ok(()) => {},
            Err(e) => {
                return Err(e);
            },
        }
        match &self.props {
            Some(props) => {
                match decode(staged, props.kind) {
                    Ok(source) => {
                        let out = self.conclude_decoded(store, &source);
                        proof {
                            let expected = decoded_outcome(
                                source.pixels@,
                                source.width,
                                source.height,
                                self.crop->0,
                                props.kind,
                            );
                            if let Ok((sizes, medium, small)) = expected {
                                assert(views(out->Ok_0.0@) == self.concluding_steps(
                                    store,
                                    medium,
                                    small,
                                ));
                            }
                        }
                        out
                    },
                    Err(e) => Err(e),
                }
            },
            None => Err(Error::new(ErrorKind::Validation, INCOMPLETE_MESSAGE)),
        }
    }
}

} // verus!
