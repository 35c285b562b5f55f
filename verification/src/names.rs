//! Stream name resolution: reading the byte spans between consecutive
//! name-table offsets, checking NUL termination, and decoding UTF-8.

use vstd::prelude::*;
use crate::error::NameError;
use crate::error::NameErrorKind;
use crate::header::StreamInfo;
use crate::model::cstr_ok;
use crate::model::lemma_names_upto_err;
use crate::model::lemma_names_upto_len;
use crate::model::names_upto;
use crate::model::with_names;
use crate::model::StreamInfoModel;
use crate::reader::Reader;
use vstd::wrapping::u32_specs;

verus! {

/// The characters that the UTF-8 decoding of `bytes` yields, or nothing
/// when `bytes` is not valid UTF-8. Named, not written out: the UTF-8
/// decoding depends on the bytes alone.
pub uninterp spec fn utf8_chars(bytes: Seq<u8>) -> Option<Seq<char>>;

/// Relies on `String::from_utf8`: it returns `Ok` exactly on valid UTF-8
/// input, and the resulting characters depend on the input bytes alone.
#[verifier::external_body]
fn utf8_to_string(bytes: Vec<u8>) -> (r: Option<String>)
    ensures
        r is Some <==> utf8_chars(bytes@) is Some,
        (match (r, utf8_chars(bytes@)) {
            (Some(s), Some(cs)) => s@ == cs,
            _ => true,
        }),
{
    match String::from_utf8(bytes) {
        Ok(s) => Some(s),
        Err(_) => None,
    }
}

/// Resolves every stream's name: for each consecutive pair of name-table
/// offsets, reads the byte span between them, checks NUL termination,
/// decodes UTF-8, and attaches the name to the stream record of the same
/// index, exactly as `names_upto` says.
#[verifier::loop_isolation(false)]
pub fn read_stream_names(
    reader: &mut Reader,
    name_offsets: &Vec<u32>,
    stream_info: Vec<StreamInfo>,
) -> (r: Result<Vec<StreamInfo>, NameError>)
    requires
        old(reader).wf(),
        name_offsets@.len() == stream_info@.len() + 1,
    ensures
        final(reader).wf(),
        final(reader).bytes() == old(reader).bytes(),
        (match names_upto(
            old(reader).bytes(),
            old(reader).pos(),
            name_offsets@,
            stream_info@.len() as int,
        ) {
            Err(e) => r == Err::<Vec<StreamInfo>, NameError>(e),
            Ok((names, p)) => final(reader).pos() == p && (r matches Ok(v) && v.deep_view()
                == with_names(stream_info.deep_view(), names)),
        }),
{
    let ghost d = old(reader).bytes();
    let ghost p0 = old(reader).pos();
    let ghost offs = name_offsets@;
    let ghost infos0 = stream_info.deep_view();
    let num = stream_info.len();
    let mut remaining = stream_info;
    let mut done: Vec<StreamInfo> = Vec::new();
    proof {
        assert(remaining.deep_view() =~= infos0.skip(0));
        assert(done.deep_view() =~= with_names(infos0.take(0), Seq::<Seq<char>>::empty()));
    }
    let mut i: usize = 0;
    while i < num
        invariant
            reader.wf(),
            reader.bytes() == d,
            i <= num,
            infos0.len() == num as int,
            remaining.deep_view() =~= infos0.skip(i as int),
            done@.len() == i as int,
            names_upto(d, p0, offs, i as int) matches Ok((names, p)) && reader.pos() == p
                && done.deep_view() == with_names(infos0.take(i as int), names),
        decreases num - i,
    {
        let ghost done_before = done.deep_view();
        let ghost step_before = names_upto(d, p0, offs, i as int);
        let name_len = name_offsets[i + 1].wrapping_sub(name_offsets[i]);
        let bytes = match reader.take_len(name_len as usize) {
            Ok(v) => v,
            Err(_) => {
                proof {
                    lemma_names_upto_err(d, p0, offs, i as int + 1, num as int);
                }
                return Err(NameError { index: i as u32, kind: NameErrorKind::Name });
            },
        };
        let n = bytes.len();
        let mut terminated = n >= 1;
        if terminated {
            terminated = bytes[n - 1] == 0;
        }
        if !terminated {
            proof {
                assert(!cstr_ok(bytes@));
                lemma_names_upto_err(d, p0, offs, i as int + 1, num as int);
            }
            return Err(NameError { index: i as u32, kind: NameErrorKind::Cstr });
        }
        let mut j: usize = 0;
        while j < n - 1
            invariant
                n == bytes@.len(),
                n >= 1,
                j <= n - 1,
                forall|t: int| 0 <= t < j as int ==> bytes@[t] != 0,
            decreases n - j,
        {
            if bytes[j] == 0 {
                proof {
                    assert(!cstr_ok(bytes@));
                    lemma_names_upto_err(d, p0, offs, i as int + 1, num as int);
                }
                return Err(NameError { index: i as u32, kind: NameErrorKind::Cstr });
            }
            j = j + 1;
        }
        proof {
            assert(cstr_ok(bytes@));
        }
        let mut content = bytes;
        content.truncate(n - 1);
        let name = match utf8_to_string(content) {
            Some(s) => s,
            None => {
                proof {
                    lemma_names_upto_err(d, p0, offs, i as int + 1, num as int);
                }
                return Err(NameError { index: i as u32, kind: NameErrorKind::Utf8 });
            },
        };
        let ghost rem_before = remaining@;
        let ghost rem_dv_before = remaining.deep_view();
        let mut info = remaining.remove(0);
        info.name = Some(name);
        let ghost info_model = info@;
        done.push(info);
        proof {
            let np = match step_before {
                Ok(v) => v,
                Err(_) => arbitrary(),
            };
            let names_i = np.0;
            let p_i = np.1;
            lemma_names_upto_len(d, p0, offs, i as int);
            assert(names_i.len() == i as int);
            let n_spec = u32_specs::wrapping_sub(offs[i as int + 1], offs[i as int]) as int;
            let bs = d.subrange(p_i, p_i + n_spec);
            assert(bytes@ == bs);
            assert(content@ =~= bs.take(n_spec - 1));
            let cs = match utf8_chars(content@) {
                Some(cs) => cs,
                None => Seq::empty(),
            };
            assert(names_upto(d, p0, offs, i as int + 1) == Ok::<(Seq<Seq<char>>, int), NameError>(
                (names_i.push(cs), p_i + n_spec),
            ));
            assert forall|t: int| 0 <= t < remaining@.len() implies #[trigger] remaining.deep_view()[t]
                == infos0.skip(i as int + 1)[t] by {
                assert(remaining@[t] == rem_before[t + 1]);
                assert(rem_dv_before[t + 1] == infos0.skip(i as int)[t + 1]);
            }
            assert(remaining.deep_view() =~= infos0.skip(i as int + 1));
            assert(rem_dv_before[0] == infos0.skip(i as int)[0]);
            assert(info_model == StreamInfoModel { name: Some(cs), ..infos0[i as int] });
            assert forall|t: int| 0 <= t < i as int + 1 implies #[trigger] done.deep_view()[t]
                == with_names(infos0.take(i as int + 1), names_i.push(cs))[t] by {
                if t < i as int {
                    assert(done.deep_view()[t] == done_before[t]);
                    assert(done_before[t] == with_names(infos0.take(i as int), names_i)[t]);
                } else {
                    assert(done.deep_view()[t] == info_model);
                }
            }
            assert(done.deep_view() =~= with_names(infos0.take(i as int + 1), names_i.push(cs)));
        }
        i = i + 1;
    }
    proof {
        assert(infos0.take(num as int) =~= infos0);
    }
    Ok(done)
}

} // verus!
