//! The binding of a default recipient: the recipient file is written first, and only once it is
//! stored the user is bound and told so.
use crate::gateway::{end_connection, unconnected, GatewayEnd};
use crate::json::{member, JsonView};
use crate::qq_api::{
    law_messages_go_to_their_user, law_text_message_carries_its_text, message_request, send_c2c,
    text_message, user_address, PostRequest, PostRequestView,
};
use crate::state::{
    law_stored_recipient_is_loaded, recipient_file_contents, recipient_file_text,
    stored_recipient, ApiErrorView, AppState, AppStateView, BINDING_REPLY, RECIPIENT_FILE_MODE,
};
use crate::text::{optional_text, trimmed};
use vstd::prelude::*;

verus! {

/// What is done, in this order, to store a recipient.
#[derive(Clone, Copy, Debug, PartialEq, Eq, Structural)]
pub enum SaveStage {
    /// The directory of the recipient file is made.
    Directory,
    /// The recipient file is written.
    Contents,
    /// The recipient file is closed to others.
    Permissions,
}

/// The model of a [`SaveAction`].
pub enum SaveActionView {
    CreateDirectory,
    Write(Seq<char>),
    SetMode(u32),
}

/// What is to be done with the recipient file.
#[derive(Debug)]
pub enum SaveAction {
    /// Make the directory that it stands in, where its path names one.
    CreateDirectory,
    /// Write this into it.
    Write(String),
    /// Give it these permissions.
    SetMode(u32),
}

impl SaveAction {
    /// The model of the action.
    pub open spec fn view(&self) -> SaveActionView {
        match self {
            SaveAction::CreateDirectory => SaveActionView::CreateDirectory,
            SaveAction::Write(text) => SaveActionView::Write(text@),
            SaveAction::SetMode(mode) => SaveActionView::SetMode(*mode),
        }
    }
}

/// The message that tells a user that they are the default recipient now, as an answer to
/// theirs.
pub open spec fn binding_reply(openid: Seq<char>, message_id: Option<Seq<char>>) -> PostRequestView {
    PostRequestView {
        url: user_address(openid, "messages"@),
        payload: text_message(BINDING_REPLY@, message_id),
    }
}

/// The model of a [`RecipientBinding`].
pub struct RecipientBindingView {
    pub openid: Seq<char>,
    pub reply: PostRequestView,
    pub stage: SaveStage,
}

/// The model of a [`BindingStep`].
pub enum BindingStepView {
    Save(RecipientBindingView),
    Reply(PostRequestView),
    Disconnect(GatewayEnd),
}

/// The binding of a user who sent a message, before anything is stored.
pub open spec fn new_binding(
    openid: Seq<char>,
    message_id: Option<Seq<char>>,
) -> RecipientBindingView {
    RecipientBindingView {
        openid,
        reply: binding_reply(openid, message_id),
        stage: SaveStage::Directory,
    }
}

impl RecipientBindingView {
    /// What is to be done at the stage.
    pub open spec fn action(self) -> SaveActionView {
        match self.stage {
            SaveStage::Directory => SaveActionView::CreateDirectory,
            SaveStage::Contents => SaveActionView::Write(recipient_file_contents(self.openid)),
            SaveStage::Permissions => SaveActionView::SetMode(RECIPIENT_FILE_MODE),
        }
    }

    /// What follows once that was done, or could not be.
    pub open spec fn step(self, done: bool) -> BindingStepView {
        if !done {
            BindingStepView::Disconnect(GatewayEnd::RecipientNotSaved(self.stage))
        } else {
            match self.stage {
                SaveStage::Directory => BindingStepView::Save(
                    RecipientBindingView { stage: SaveStage::Contents, ..self },
                ),
                SaveStage::Contents => BindingStepView::Save(
                    RecipientBindingView { stage: SaveStage::Permissions, ..self },
                ),
                SaveStage::Permissions => BindingStepView::Reply(self.reply),
            }
        }
    }

    /// The service after that: the user is the default recipient where the last stage was done,
    /// and where a stage failed the service is not connected.
    pub open spec fn state_after(self, state: AppStateView, done: bool) -> AppStateView {
        match self.step(done) {
            BindingStepView::Save(_) => state,
            BindingStepView::Reply(_) => AppStateView { recipient: Some(self.openid), ..state },
            BindingStepView::Disconnect(_) => unconnected(state),
        }
    }
}

/// A recipient that is being bound.
#[derive(Debug)]
pub struct RecipientBinding {
    openid: String,
    reply: PostRequest,
    stage: SaveStage,
}

/// What is to be done about a binding.
#[derive(Debug)]
pub enum BindingStep {
    /// Do what the binding asks for next.
    Save(RecipientBinding),
    /// Post the reply: the user is bound.
    Reply(PostRequest),
    /// Give up the connection.
    Disconnect(GatewayEnd),
}

impl BindingStep {
    /// The model of the step.
    pub open spec fn view(&self) -> BindingStepView {
        match self {
            BindingStep::Save(binding) => BindingStepView::Save(binding@),
            BindingStep::Reply(reply) => BindingStepView::Reply(reply@),
            BindingStep::Disconnect(end) => BindingStepView::Disconnect(*end),
        }
    }
}

impl RecipientBinding {
    /// The model of the binding.
    pub closed spec fn view(&self) -> RecipientBindingView {
        RecipientBindingView { openid: self.openid@, reply: self.reply@, stage: self.stage }
    }

    /// Begins to bind a user who sent a message, by its id.
    pub fn new(openid: String, message_id: Option<&str>) -> (r: RecipientBinding)
        ensures
            r@ == new_binding(openid@, optional_text(message_id)),
    {
        let reply = send_c2c(openid.as_str(), BINDING_REPLY, message_id);
        RecipientBinding { openid, reply, stage: SaveStage::Directory }
    }

    /// What is to be done next.
    pub fn action(&self) -> (r: SaveAction)
        ensures
            r@ == self@.action(),
    {
        match self.stage {
            SaveStage::Directory => SaveAction::CreateDirectory,
            SaveStage::Contents => SaveAction::Write(recipient_file_text(self.openid.as_str())),
            SaveStage::Permissions => SaveAction::SetMode(RECIPIENT_FILE_MODE),
        }
    }

    /// Decides once that was done, or could not be.
    pub fn after_action(self, state: &mut AppState, done: bool) -> (r: BindingStep)
        ensures
            r@ == self@.step(done),
            final(state)@ == self@.state_after(old(state)@, done),
    {
        if !done {
            end_connection(state);
            return BindingStep::Disconnect(GatewayEnd::RecipientNotSaved(self.stage));
        }
        match self.stage {
            SaveStage::Directory => BindingStep::Save(
                RecipientBinding {
                    openid: self.openid,
                    reply: self.reply,
                    stage: SaveStage::Contents,
                },
            ),
            SaveStage::Contents => BindingStep::Save(
                RecipientBinding {
                    openid: self.openid,
                    reply: self.reply,
                    stage: SaveStage::Permissions,
                },
            ),
            SaveStage::Permissions => {
                state.save_recipient(self.openid);
                BindingStep::Reply(self.reply)
            },
        }
    }
}

/// Where every stage is done, the user is bound and told so: the directory is made, the file is
/// written with just their name, it is closed to others, and only then they are the default
/// recipient and get the reply. What was written loads as them.
pub proof fn law_stored_user_is_bound_and_told(
    state: AppStateView,
    openid: Seq<char>,
    message_id: Option<Seq<char>>,
)
    ensures
        ({
            let directory = new_binding(openid, message_id);
            &&& directory.action() == SaveActionView::CreateDirectory
            &&& directory.state_after(state, true) == state
            &&& directory.step(true) matches BindingStepView::Save(contents)
            &&& contents.action() == SaveActionView::Write(recipient_file_contents(openid))
            &&& contents.state_after(state, true) == state
            &&& contents.step(true) matches BindingStepView::Save(permissions)
            &&& permissions.action() == SaveActionView::SetMode(RECIPIENT_FILE_MODE)
            &&& permissions.step(true) == BindingStepView::Reply(binding_reply(openid, message_id))
            &&& permissions.state_after(state, true) == AppStateView {
                recipient: Some(openid),
                ..state
            }
            &&& permissions.state_after(state, true).recipient_for(None) == Ok::<_, ApiErrorView>(
                openid,
            )
            &&& openid.len() > 0 && trimmed(openid) == openid ==> stored_recipient(
                Some(recipient_file_contents(openid)),
            ) == Some(openid)
        }),
{
    law_stored_recipient_is_loaded(openid);
}

/// A user is told, and becomes the default recipient, only where the last stage was done. Where
/// a stage fails the recipient stays, the connection ends and the service is not connected.
pub proof fn law_nobody_is_bound_unless_stored(
    binding: RecipientBindingView,
    state: AppStateView,
    done: bool,
)
    ensures
        binding.step(done) is Reply <==> done && binding.stage == SaveStage::Permissions,
        binding.step(done) !is Reply ==> binding.state_after(state, done).recipient
            == state.recipient,
        !done ==> binding.step(done) is Disconnect && !binding.state_after(state, done).connected,
        binding.state_after(state, done).api_token_hash == state.api_token_hash,
{
}

/// The recipient file holds the user's name and the end of the line, and only its owner may read
/// and write it.
pub proof fn law_recipient_file_holds_the_user(binding: RecipientBindingView)
    ensures
        binding.stage == SaveStage::Directory ==> binding.action()
            == SaveActionView::CreateDirectory,
        binding.stage == SaveStage::Contents ==> binding.action() == SaveActionView::Write(
            binding.openid.push('\n'),
        ),
        binding.stage == SaveStage::Permissions ==> binding.action() == SaveActionView::SetMode(
            0o600,
        ),
{
    reveal_strlit("\n");
    assert(recipient_file_contents(binding.openid) =~= binding.openid.push('\n'));
}

/// The reply that tells a user that they are bound goes to that user, answers their message
/// where it has an id, and says so in words.
pub proof fn law_reply_answers_the_user(openid: Seq<char>, message_id: Option<Seq<char>>)
    ensures
        binding_reply(openid, message_id).url == "https://api.sgroup.qq.com/v2/users/"@ + openid
            + "/messages"@,
        member(binding_reply(openid, message_id).payload, "msg_type"@) == Some(
            JsonView::Integer(0),
        ),
        member(binding_reply(openid, message_id).payload, "content"@) == Some(
            JsonView::Text("已绑定通知接收人。之后任务完成时会发送最后汇报。"@),
        ),
        member(binding_reply(openid, message_id).payload, "msg_id"@) == match message_id {
            Some(id) => Some(JsonView::Text(id)),
            None => None,
        },
        new_binding(openid, message_id).openid == openid,
        new_binding(openid, message_id).reply == binding_reply(openid, message_id),
        new_binding(openid, message_id).stage == SaveStage::Directory,
{
    law_text_message_carries_its_text(BINDING_REPLY@, message_id);
    law_messages_go_to_their_user(openid, text_message(BINDING_REPLY@, message_id));
    assert(binding_reply(openid, message_id) == message_request(
        openid,
        text_message(BINDING_REPLY@, message_id),
    ));
}

/// What is to be done about a binding is shown as what it is.
pub proof fn law_binding_steps_show_what_they_hold(
    text: String,
    mode: u32,
    binding: RecipientBinding,
    reply: PostRequest,
    end: GatewayEnd,
)
    ensures
        SaveAction::CreateDirectory@ is CreateDirectory,
        SaveAction::Write(text)@ == SaveActionView::Write(text@),
        SaveAction::SetMode(mode)@ == SaveActionView::SetMode(mode),
        BindingStep::Save(binding)@ == BindingStepView::Save(binding@),
        BindingStep::Reply(reply)@ == BindingStepView::Reply(reply@),
        BindingStep::Disconnect(end)@ == BindingStepView::Disconnect(end),
{
}

} // verus!
