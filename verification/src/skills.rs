//! The tool by which a language model asks for context from a repository:
//! its name and prompts, and the texts that go to and come from the search.

use vstd::prelude::*;
use vstd::string::StringExecFns;

verus! {

/// The tool that retrieves context from a repository by natural language.
#[derive(Debug, Clone, Copy, PartialEq, Eq, Structural)]
pub struct RepositoryContextRetriever;

/// The lower-case form of a text, as Unicode defines it.
pub uninterp spec fn lowercase(text: Seq<char>) -> Seq<char>;

/// `str::to_lowercase`: the lower-case form of the text.
#[verifier::external_body]
fn to_lowercase(text: &str) -> (lower: String)
    ensures
        lower@ == lowercase(text@),
{
    text.to_lowercase()
}

/// The parts in order, with the separator between each two.
pub open spec fn joined(parts: Seq<Seq<char>>, separator: Seq<char>) -> Seq<char>
    decreases parts.len(),
{
    if parts.len() == 0 {
        Seq::empty()
    } else if parts.len() == 1 {
        parts[0]
    } else {
        joined(parts.drop_last(), separator) + separator + parts.last()
    }
}

/// The texts of a list of strings, one for one.
pub open spec fn texts(parts: Seq<String>) -> Seq<Seq<char>> {
    parts.map_values(|part: String| part@)
}

/// The text that presents one search result: the file it is from, and the
/// snippet in a code fence that names the language in lower case, if the
/// file has one.
pub open spec fn snippet(file_path: Seq<char>, language: Option<Seq<char>>, text: Seq<char>) -> Seq<
    char,
> {
    "The following is a relevant snippet from file ("@ + file_path + "):\n```"@ + match language {
        Some(name) => lowercase(name),
        None => Seq::empty(),
    } + "\n"@ + text + "\n```\n"@
}

impl RepositoryContextRetriever {
    /// The name by which the model calls the tool.
    pub fn name(&self) -> (name: String)
        ensures
            name@ == "retrieve_context_from_repository"@,
    {
        String::from_str("retrieve_context_from_repository")
    }

    /// What the tool does, in one sentence.
    pub fn description(&self) -> (description: String)
        ensures
            description@ == "Retrieve relevant content from repository with natural language"@,
    {
        String::from_str("Retrieve relevant content from repository with natural language")
    }

    /// The instructions that tell the model when and how to call the tool.
    pub fn system_prompt(&self) -> (prompt: String)
        ensures
            prompt@ == Self::system_prompt_text(),
    {
        String::from_str(
            "'retrieve_context_from_repository'
                If more information is needed from the repository, to complete the users prompt reliably, pass up to 3 queries describing pieces of code or text you would like additional context upon.
                Do not make these queries general about programming, include very specific lexical references to the pieces of code you need more information on.
                We are passing these into a semantic similarity retrieval engine, with all the information in the current codebase included.
                As such, these should be phrased as descriptions of code of interest as opposed to questions",
        )
    }

    /// The text of the instructions.
    pub open spec fn system_prompt_text() -> Seq<char> {
        "'retrieve_context_from_repository'
                If more information is needed from the repository, to complete the users prompt reliably, pass up to 3 queries describing pieces of code or text you would like additional context upon.
                Do not make these queries general about programming, include very specific lexical references to the pieces of code you need more information on.
                We are passing these into a semantic similarity retrieval engine, with all the information in the current codebase included.
                As such, these should be phrased as descriptions of code of interest as opposed to questions"@
    }

    /// The one query that goes to the search: the queries of the model,
    /// separated by semicolons.
    pub fn search_query(&self, queries: &Vec<String>) -> (query: String)
        ensures
            query@ == joined(texts(queries@), seq![';']),
    {
        let mut query = String::new();
        let mut done: usize = 0;
        assert(texts(queries@.take(0)) =~= Seq::empty());
        while done < queries.len()
            invariant
                done <= queries@.len(),
                query@ == joined(texts(queries@.take(done as int)), seq![';']),
            decreases queries@.len() - done,
        {
            let ghost seen = texts(queries@.take(done as int));
            if done > 0 {
                proof {
                    reveal_strlit(";");
                    assert(";"@ =~= seq![';']);
                }
                query.append(";");
            }
            query.append(queries[done].as_str());
            proof {
                let longer = texts(queries@.take(done + 1));
                assert(longer.drop_last() =~= seen);
                assert(longer.last() == queries@[done as int]@);
                if done == 0 {
                    assert(query@ =~= longer[0]);
                }
            }
            done += 1;
        }
        assert(queries@.take(done as int) =~= queries@);
        query
    }

    /// Appends one search result to the prompt: a line that names the file,
    /// then the snippet in a code fence.
    pub fn push_snippet(
        &self,
        prompt: &mut String,
        file_path: &str,
        language: Option<&str>,
        text: &str,
    )
        ensures
            final(prompt)@ == old(prompt)@ + snippet(
                file_path@,
                match language {
                    Some(name) => Some(name@),
                    None => None,
                },
                text@,
            ),
    {
        let ghost before = prompt@;
        prompt.append("The following is a relevant snippet from file (");
        prompt.append(file_path);
        prompt.append("):\n```");
        let ghost head = prompt@;
        match language {
            Some(name) => {
                let lower = to_lowercase(name);
                prompt.append(lower.as_str());
            },
            None => {
                assert(prompt@ =~= head + Seq::<char>::empty());
            },
        }
        prompt.append("\n");
        prompt.append(text);
        prompt.append("\n```\n");
        assert(prompt@ =~= before + snippet(
            file_path@,
            match language {
                Some(name) => Some(name@),
                None => None,
            },
            text@,
        ));
    }
}

} // verus!
