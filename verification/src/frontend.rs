//! The web page that lists the models: what it shows, and how it answers
//! the user's request and the server's response.
use vstd::prelude::*;
use vstd::string::*;
use crate::shared::{ApiAIModelView, ModelsApiResponse};

verus! {

/// The address the page asks for the list of models.
pub open spec fn models_url() -> Seq<char> {
    "http://127.0.0.1:8000/api/v1/admin/models/list"@
}

/// What the page is told: the user asks for the models, or the server's
/// answer arrives (the list, or the text of what went wrong).
#[derive(Debug)]
pub enum Msg {
    GetListModels,
    ReceiveResponse(Result<ModelsApiResponse, String>),
}

/// A `Msg` as plain values.
pub enum MsgView {
    GetListModels,
    ReceiveResponse(Result<Seq<ApiAIModelView>, Seq<char>>),
}

impl View for Msg {
    type V = MsgView;

    open spec fn view(&self) -> MsgView {
        match self {
            Msg::GetListModels => MsgView::GetListModels,
            Msg::ReceiveResponse(Ok(m)) => MsgView::ReceiveResponse(Ok(m@)),
            Msg::ReceiveResponse(Err(e)) => MsgView::ReceiveResponse(Err(e@)),
        }
    }
}

/// What the page must do after a message: nothing, or fetch an address.
#[derive(Debug)]
pub enum FetchAction {
    Nothing,
    Fetch(String),
}

/// The state of the page: whether a request is under way, the models last
/// received, and the last error.
#[derive(Debug)]
pub struct FetchServiceExample {
    pub fetching: bool,
    pub models: Option<ModelsApiResponse>,
    pub error: Option<String>,
}

/// The state of the page as plain values.
pub struct FetchView {
    pub fetching: bool,
    pub models: Option<Seq<ApiAIModelView>>,
    pub error: Option<Seq<char>>,
}

impl View for FetchServiceExample {
    type V = FetchView;

    open spec fn view(&self) -> FetchView {
        FetchView {
            fetching: self.fetching,
            models: match self.models {
                Some(m) => Some(m@),
                None => None,
            },
            error: crate::error::opt_string_view(self.error),
        }
    }
}

/// The page before anything happened.
pub open spec fn initial_page() -> FetchView {
    FetchView { fetching: false, models: None, error: None }
}

/// The state of the page after message `m`: a request puts it into the
/// fetching state; an answer ends it, and either replaces the models or
/// records the error, keeping the rest.
pub open spec fn page_step(s: FetchView, m: MsgView) -> FetchView {
    match m {
        MsgView::GetListModels => FetchView { fetching: true, ..s },
        MsgView::ReceiveResponse(Ok(models)) => FetchView {
            fetching: false,
            models: Some(models),
            ..s
        },
        MsgView::ReceiveResponse(Err(e)) => FetchView { fetching: false, error: Some(e), ..s },
    }
}

impl FetchServiceExample {
    /// The page before anything happened.
    pub fn create() -> (page: FetchServiceExample)
        ensures
            page@ == initial_page(),
    {
        FetchServiceExample { fetching: false, models: None, error: None }
    }

    /// Takes message `msg` into account. The page is always redrawn; a
    /// request for the models asks to fetch the list's address, and nothing
    /// else asks for anything.
    pub fn update(&mut self, msg: Msg) -> (r: (bool, FetchAction))
        ensures
            final(self)@ == page_step(old(self)@, msg@),
            r.0,
            msg is GetListModels ==> (r.1 matches FetchAction::Fetch(url) && url@ == models_url()),
            !(msg is GetListModels) ==> r.1 is Nothing,
            msg is GetListModels ==> final(self).fetching,
            msg is GetListModels ==> final(self)@.models == old(self)@.models
                && final(self)@.error == old(self)@.error,
            msg is ReceiveResponse ==> !final(self).fetching,
    {
        proof {
            request_always_fetches(old(self)@);
        }
        match msg {
            Msg::GetListModels => {
                self.fetching = true;
                (true, FetchAction::Fetch(String::from_str("http://127.0.0.1:8000/api/v1/admin/models/list")))
            },
            Msg::ReceiveResponse(response) => {
                match response {
                    Ok(models) => {
                        self.models = Some(models);
                    },
                    Err(error) => {
                        self.error = Some(error);
                    },
                }
                self.fetching = false;
                (true, FetchAction::Nothing)
            },
        }
    }

    /// The line shown about the request: "Fetching data..." while one is
    /// under way, and nothing otherwise.
    pub fn fetching_text(&self) -> (t: String)
        ensures
            t@ == if self.fetching { "Fetching data..."@ } else { ""@ },
    {
        if self.fetching {
            String::from_str("Fetching data...")
        } else {
            String::from_str("")
        }
    }

    /// The error shown, if any.
    pub fn error_text(&self) -> (t: Option<String>)
        ensures
            crate::error::opt_string_view(t) == self@.error,
    {
        match &self.error {
            Some(e) => Some(e.clone()),
            None => None,
        }
    }

    /// The text above the list of models once it was received, or the
    /// label of the button that asks for it before.
    pub fn models_heading(&self) -> (t: String)
        ensures
            t@ == if self.models is Some {
                "The List of available model is:"@
            } else {
                "What model are available?"@
            },
    {
        match &self.models {
            Some(_) => String::from_str("The List of available model is:"),
            None => String::from_str("What model are available?"),
        }
    }
}

/// Whatever the page held (models, an earlier error or a request under
/// way), a request for the models puts it into the fetching state and
/// leaves what it shows otherwise as it was.
pub proof fn request_always_fetches(s: FetchView)
    ensures
        page_step(s, MsgView::GetListModels).fetching,
        page_step(s, MsgView::GetListModels).models == s.models,
        page_step(s, MsgView::GetListModels).error == s.error,
{
}

/// Whatever the page held, its answer arrived ends the request under way.
pub proof fn answer_ends_fetching(s: FetchView, r: Result<Seq<ApiAIModelView>, Seq<char>>)
    ensures
        !page_step(s, MsgView::ReceiveResponse(r)).fetching,
{
}

/// Asking for the models and then receiving them shows exactly those
/// models, with no request under way and the earlier error kept.
pub proof fn request_then_models(s: FetchView, models: Seq<ApiAIModelView>)
    ensures
        page_step(page_step(s, MsgView::GetListModels), MsgView::ReceiveResponse(Ok(models)))
            == (FetchView { fetching: false, models: Some(models), error: s.error }),
{
}

/// An error that arrives leaves the models that were shown in place.
pub proof fn error_keeps_models(s: FetchView, e: Seq<char>)
    ensures
        page_step(s, MsgView::ReceiveResponse(Err(e))).models == s.models,
        page_step(s, MsgView::ReceiveResponse(Err(e))).error == Some(e),
{
}

} // verus!
