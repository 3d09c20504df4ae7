use vstd::prelude::*;

verus! {

#[derive(Debug, Clone)]
pub struct CreateProjectRequest {
    pub name: String,
    pub description: Option<String>,
}

#[derive(Debug, Clone)]
pub struct UpdateProjectRequest {
    pub name: Option<String>,
    pub description: Option<String>,
    pub status: Option<String>,
}

#[derive(Debug, Clone)]
pub struct ProjectResponse {
    pub id: String,
    pub short_id: Option<String>,
    pub user_id: Option<String>,
    pub name: String,
    pub description: Option<String>,
    pub status: String,
    pub created_at: String,
    pub updated_at: String,
}

#[derive(Debug, Clone)]
pub struct UpdateAIConfigRequest {
    pub stt_mode: Option<String>,
    pub stt_provider: Option<String>,
    pub stt_model: Option<String>,
    pub tts_mode: Option<String>,
    pub tts_provider: Option<String>,
    pub tts_model: Option<String>,
    pub tts_voice: Option<String>,
    pub llm_mode: Option<String>,
    pub llm_provider: Option<String>,
    pub llm_model: Option<String>,
}

#[derive(Debug, Clone)]
pub struct AIConfigResponse {
    pub project_id: String,
    pub stt_mode: Option<String>,
    pub stt_provider: Option<String>,
    pub stt_model: Option<String>,
    pub tts_mode: Option<String>,
    pub tts_provider: Option<String>,
    pub tts_model: Option<String>,
    pub tts_voice: Option<String>,
    pub llm_mode: Option<String>,
    pub llm_provider: Option<String>,
    pub llm_model: Option<String>,
}

/// A stored project, its timestamps already in text.
#[derive(Debug, Clone)]
pub struct ProjectRecord {
    pub id: String,
    pub short_id: String,
    pub user_id: String,
    pub name: String,
    pub description: Option<String>,
    pub status: String,
    pub created_at: Option<String>,
    pub updated_at: Option<String>,
}

pub open spec fn text_or_empty(o: Option<String>) -> Seq<char> {
    match o {
        Some(s) => s@,
        None => Seq::empty(),
    }
}

/// The answer describing a stored project; a missing timestamp is empty.
pub fn map_project_to_response(project: ProjectRecord) -> (r: ProjectResponse)
    ensures
        r.id == project.id,
        r.short_id == Some(project.short_id),
        r.user_id == Some(project.user_id),
        r.name == project.name,
        r.description == project.description,
        r.status == project.status,
        r.created_at@ == text_or_empty(project.created_at),
        r.updated_at@ == text_or_empty(project.updated_at),
{
    let created_at = match project.created_at {
        Some(t) => t,
        None => String::new(),
    };
    let updated_at = match project.updated_at {
        Some(t) => t,
        None => String::new(),
    };
    ProjectResponse {
        id: project.id,
        short_id: Some(project.short_id),
        user_id: Some(project.user_id),
        name: project.name,
        description: project.description,
        status: project.status,
        created_at,
        updated_at,
    }
}

} // verus!
