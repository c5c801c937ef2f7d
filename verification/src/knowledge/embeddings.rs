//! Text embedding: which model a configured name selects, and the prefixes
//! that E5 models expect. Running the model is the caller's part.
use vstd::prelude::*;
use crate::error::AgentError;
use crate::text::same_text;

verus! {

/// The embedding models that can be configured.
#[derive(Debug, Clone, Copy, PartialEq, Eq, Structural)]
pub enum EmbeddingModelKind {
    AllMiniLML6V2,
    AllMiniLML6V2Q,
    AllMiniLML12V2,
    AllMpnetBaseV2,
    BGEBaseENV15,
    BGEBaseENV15Q,
    BGELargeENV15,
    BGELargeENV15Q,
    BGESmallENV15,
    BGESmallENV15Q,
    NomicEmbedTextV1,
    NomicEmbedTextV15,
    NomicEmbedTextV15Q,
    ParaphraseMLMiniLML12V2,
    ParaphraseMLMpnetBaseV2,
    BGEM3,
    MultilingualE5Small,
    MultilingualE5Base,
    MultilingualE5Large,
    MxbaiEmbedLargeV1,
    MxbaiEmbedLargeV1Q,
    GTEBaseENV15,
}

/// The model that a configured name selects.
pub open spec fn model_named(name: Seq<char>) -> Option<EmbeddingModelKind> {
    if false {
        None
    } else if name == "all-MiniLM-L6-v2"@ {
        Some(EmbeddingModelKind::AllMiniLML6V2)
    } else if name == "all-MiniLM-L6-v2-q"@ {
        Some(EmbeddingModelKind::AllMiniLML6V2Q)
    } else if name == "all-MiniLM-L12-v2"@ {
        Some(EmbeddingModelKind::AllMiniLML12V2)
    } else if name == "all-mpnet-base-v2"@ {
        Some(EmbeddingModelKind::AllMpnetBaseV2)
    } else if name == "bge-base-en-v1.5"@ {
        Some(EmbeddingModelKind::BGEBaseENV15)
    } else if name == "bge-base-en-v1.5-q"@ {
        Some(EmbeddingModelKind::BGEBaseENV15Q)
    } else if name == "bge-large-en-v1.5"@ {
        Some(EmbeddingModelKind::BGELargeENV15)
    } else if name == "bge-large-en-v1.5-q"@ {
        Some(EmbeddingModelKind::BGELargeENV15Q)
    } else if name == "bge-small-en-v1.5"@ {
        Some(EmbeddingModelKind::BGESmallENV15)
    } else if name == "bge-small-en-v1.5-q"@ {
        Some(EmbeddingModelKind::BGESmallENV15Q)
    } else if name == "nomic-embed-text-v1"@ {
        Some(EmbeddingModelKind::NomicEmbedTextV1)
    } else if name == "nomic-embed-text-v1.5"@ {
        Some(EmbeddingModelKind::NomicEmbedTextV15)
    } else if name == "nomic-embed-text-v1.5-q"@ {
        Some(EmbeddingModelKind::NomicEmbedTextV15Q)
    } else if name == "paraphrase-multilingual-MiniLM-L12-v2"@ {
        Some(EmbeddingModelKind::ParaphraseMLMiniLML12V2)
    } else if name == "paraphrase-multilingual-mpnet-base-v2"@ {
        Some(EmbeddingModelKind::ParaphraseMLMpnetBaseV2)
    } else if name == "bgem3"@ {
        Some(EmbeddingModelKind::BGEM3)
    } else if name == "BAAI/bgem3"@ {
        Some(EmbeddingModelKind::BGEM3)
    } else if name == "multilingual-e5-small"@ {
        Some(EmbeddingModelKind::MultilingualE5Small)
    } else if name == "intfloat/multilingual-e5-small"@ {
        Some(EmbeddingModelKind::MultilingualE5Small)
    } else if name == "multilingual-e5-base"@ {
        Some(EmbeddingModelKind::MultilingualE5Base)
    } else if name == "intfloat/multilingual-e5-base"@ {
        Some(EmbeddingModelKind::MultilingualE5Base)
    } else if name == "multilingual-e5-large"@ {
        Some(EmbeddingModelKind::MultilingualE5Large)
    } else if name == "intfloat/multilingual-e5-large"@ {
        Some(EmbeddingModelKind::MultilingualE5Large)
    } else if name == "mxbai-embed-large-v1"@ {
        Some(EmbeddingModelKind::MxbaiEmbedLargeV1)
    } else if name == "mxbai-embed-large-v1-q"@ {
        Some(EmbeddingModelKind::MxbaiEmbedLargeV1Q)
    } else if name == "gte-base-en-v1.5"@ {
        Some(EmbeddingModelKind::GTEBaseENV15)
    } else {
        None
    }
}

/// The message for an unknown model name.
pub open spec fn unknown_model_text(name: Seq<char>) -> Seq<char> {
    "Unknown embedding model: '"@ + name + "'. See docs for supported models."@
}

/// Maps a human-readable model name to the model it selects; an unknown
/// name is an embedding error.
pub fn model_from_name(name: &str) -> (r: Result<EmbeddingModelKind, AgentError>)
    ensures
        match model_named(name@) {
            Some(m) => r == Ok::<EmbeddingModelKind, AgentError>(m),
            None => r matches Err(AgentError::EmbeddingError(msg)) && msg@ == unknown_model_text(name@),
        },
{
    if same_text(name, "all-MiniLM-L6-v2") {
        return Ok(EmbeddingModelKind::AllMiniLML6V2);
    }
    if same_text(name, "all-MiniLM-L6-v2-q") {
        return Ok(EmbeddingModelKind::AllMiniLML6V2Q);
    }
    if same_text(name, "all-MiniLM-L12-v2") {
        return Ok(EmbeddingModelKind::AllMiniLML12V2);
    }
    if same_text(name, "all-mpnet-base-v2") {
        return Ok(EmbeddingModelKind::AllMpnetBaseV2);
    }
    if same_text(name, "bge-base-en-v1.5") {
        return Ok(EmbeddingModelKind::BGEBaseENV15);
    }
    if same_text(name, "bge-base-en-v1.5-q") {
        return Ok(EmbeddingModelKind::BGEBaseENV15Q);
    }
    if same_text(name, "bge-large-en-v1.5") {
        return Ok(EmbeddingModelKind::BGELargeENV15);
    }
    if same_text(name, "bge-large-en-v1.5-q") {
        return Ok(EmbeddingModelKind::BGELargeENV15Q);
    }
    if same_text(name, "bge-small-en-v1.5") {
        return Ok(EmbeddingModelKind::BGESmallENV15);
    }
    if same_text(name, "bge-small-en-v1.5-q") {
        return Ok(EmbeddingModelKind::BGESmallENV15Q);
    }
    if same_text(name, "nomic-embed-text-v1") {
        return Ok(EmbeddingModelKind::NomicEmbedTextV1);
    }
    if same_text(name, "nomic-embed-text-v1.5") {
        return Ok(EmbeddingModelKind::NomicEmbedTextV15);
    }
    if same_text(name, "nomic-embed-text-v1.5-q") {
        return Ok(EmbeddingModelKind::NomicEmbedTextV15Q);
    }
    if same_text(name, "paraphrase-multilingual-MiniLM-L12-v2") {
        return Ok(EmbeddingModelKind::ParaphraseMLMiniLML12V2);
    }
    if same_text(name, "paraphrase-multilingual-mpnet-base-v2") {
        return Ok(EmbeddingModelKind::ParaphraseMLMpnetBaseV2);
    }
    if same_text(name, "bgem3") {
        return Ok(EmbeddingModelKind::BGEM3);
    }
    if same_text(name, "BAAI/bgem3") {
        return Ok(EmbeddingModelKind::BGEM3);
    }
    if same_text(name, "multilingual-e5-small") {
        return Ok(EmbeddingModelKind::MultilingualE5Small);
    }
    if same_text(name, "intfloat/multilingual-e5-small") {
        return Ok(EmbeddingModelKind::MultilingualE5Small);
    }
    if same_text(name, "multilingual-e5-base") {
        return Ok(EmbeddingModelKind::MultilingualE5Base);
    }
    if same_text(name, "intfloat/multilingual-e5-base") {
        return Ok(EmbeddingModelKind::MultilingualE5Base);
    }
    if same_text(name, "multilingual-e5-large") {
        return Ok(EmbeddingModelKind::MultilingualE5Large);
    }
    if same_text(name, "intfloat/multilingual-e5-large") {
        return Ok(EmbeddingModelKind::MultilingualE5Large);
    }
    if same_text(name, "mxbai-embed-large-v1") {
        return Ok(EmbeddingModelKind::MxbaiEmbedLargeV1);
    }
    if same_text(name, "mxbai-embed-large-v1-q") {
        return Ok(EmbeddingModelKind::MxbaiEmbedLargeV1Q);
    }
    if same_text(name, "gte-base-en-v1.5") {
        return Ok(EmbeddingModelKind::GTEBaseENV15);
    }
    let mut msg = String::from_str("Unknown embedding model: '");
    msg.append(name);
    msg.append("'. See docs for supported models.");
    Err(AgentError::EmbeddingError(msg))
}

/// The input for embedding a query: the text behind the `query: ` prefix.
pub fn query_input(text: &str) -> (s: String)
    ensures
        s@ == "query: "@ + text@,
{
    let mut s = String::from_str("query: ");
    s.append(text);
    s
}

/// The input for embedding a passage: the text behind the `passage: ` prefix.
pub fn passage_input(text: &str) -> (s: String)
    ensures
        s@ == "passage: "@ + text@,
{
    let mut s = String::from_str("passage: ");
    s.append(text);
    s
}

} // verus!
