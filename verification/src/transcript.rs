//! Rendering of the block appended to the flat transcript file at run end.
//! The date stamp, the file test and the writing stay with the caller, who
//! owns the clock and the disk.

use vstd::prelude::*;

verus! {

/// The block appended for one run: a separator where the file already held
/// earlier transcripts, then the date-stamp line with a blank line after it,
/// then the transcript text, each written line ending in a newline.
pub open spec fn transcript_block_spec(
    transcript: Seq<char>,
    date_time: Seq<char>,
    file_existed: bool,
) -> Seq<char> {
    let stamped = "Transcript Date: "@ + date_time + "\n\n"@ + transcript + "\n"@;
    if file_existed {
        "\n\n——————————-NEW ROOM——————————-\n\n"@ + stamped
    } else {
        stamped
    }
}

/// Renders the transcript block for one run, ready to be appended to the
/// transcript file.
pub fn render_transcript_block(transcript: &str, date_time: &str, file_existed: bool) -> (r:
    String)
    ensures
        r@ == transcript_block_spec(transcript@, date_time@, file_existed),
{
    let mut out = if file_existed {
        "\n\n——————————-NEW ROOM——————————-\n\n".to_owned()
    } else {
        String::new()
    };
    out.append("Transcript Date: ");
    out.append(date_time);
    out.append("\n\n");
    out.append(transcript);
    out.append("\n");
    proof {
        assert(out@ =~= transcript_block_spec(transcript@, date_time@, file_existed));
    }
    out
}

} // verus!
